//! Organizations of a client app: the name checks made when one is created
//! or renamed, and the answers when one is not found.
use vstd::prelude::*;

use crate::dtos::admin::UpdateOrganizationRequest;
use crate::error::AppError;
use crate::text::{chars_eq, chars_of, concat_chars, string_of};

verus! {

broadcast use vstd::string::group_string_axioms;

/// The refusal of a name that another organization of the app has.
pub open spec fn name_taken_text(name: Seq<char>) -> Seq<char> {
    "Organization '"@ + name + "' already exists in this app"@
}

/// A new organization's name must be free in its app.
pub fn check_new_org_name(name: &str, taken: bool) -> (r: Result<(), AppError>)
    ensures
        r is Ok <==> !taken,
        r is Err ==> (r matches Err(AppError::Conflict(m)) && m@ == name_taken_text(name@)),
{
    if taken {
        return Err(
            AppError::Conflict(
                string_of(
                    &concat_chars(
                        &concat_chars(&chars_of("Organization '"), &chars_of(name)),
                        &chars_of("' already exists in this app"),
                    ),
                ),
            ),
        );
    }
    Ok(())
}

/// A rename to a name that differs from the current one must find it free
/// among the app's other organizations (`taken_by_other` is consulted only
/// then); keeping the name, or giving none, needs no check.
pub fn check_rename(current: &str, new_name: Option<&str>, taken_by_other: bool) -> (r: Result<
    (),
    AppError,
>)
    ensures
        match new_name {
            Some(n) => if n@ != current@ && taken_by_other {
                r matches Err(AppError::Conflict(m)) && m@ == name_taken_text(n@)
            } else {
                r is Ok
            },
            None => r is Ok,
        },
{
    match new_name {
        Some(n) => {
            if !chars_eq(&chars_of(n), &chars_of(current)) {
                return check_new_org_name(n, taken_by_other);
            }
            Ok(())
        },
        None => Ok(()),
    }
}

/// An update or deletion must find its organization.
pub fn check_org_found(matched: u64) -> (r: Result<(), AppError>)
    ensures
        r is Ok <==> matched > 0,
        r is Err ==> (r matches Err(AppError::NotFound(m)) && m@ == "Organization not found"@),
{
    if matched == 0 {
        return Err(AppError::NotFound("Organization not found".to_owned()));
    }
    Ok(())
}

/// An organization of an app as stored, with its settings `S`; times are
/// seconds since the Unix epoch.
#[derive(Clone, Debug, PartialEq, Eq)]
pub struct OrganizationRecord<S> {
    pub org_id: String,
    pub app_id: String,
    pub name: String,
    pub settings: S,
    pub enabled: bool,
    pub updated_at: i64,
}

/// `r` is `org` updated by `req` at `now`: name, settings and enabled take
/// the values given, the others are kept with the ids, and the update time
/// is `now`.
pub open spec fn is_org_update<S>(
    r: OrganizationRecord<S>,
    org: OrganizationRecord<S>,
    req: UpdateOrganizationRequest<S>,
    now: i64,
) -> bool {
    &&& r.org_id == org.org_id
    &&& r.app_id == org.app_id
    &&& r.name == (match req.name {
        Some(n) => n,
        None => org.name,
    })
    &&& r.settings == (match req.settings {
        Some(x) => x,
        None => org.settings,
    })
    &&& r.enabled == (match req.enabled {
        Some(e) => e,
        None => org.enabled,
    })
    &&& r.updated_at == now
}

impl<S> OrganizationRecord<S> {
    /// The organization after `req` is applied at `now`.
    pub fn apply_update(self, req: UpdateOrganizationRequest<S>, now: i64) -> (r: Self)
        ensures
            is_org_update(r, self, req, now),
    {
        let OrganizationRecord { org_id, app_id, name, settings, enabled, updated_at: _ } = self;
        let UpdateOrganizationRequest { name: new_name, settings: new_settings, enabled: new_enabled } = req;
        OrganizationRecord {
            org_id,
            app_id,
            name: match new_name {
                Some(n) => n,
                None => name,
            },
            settings: match new_settings {
                Some(x) => x,
                None => settings,
            },
            enabled: match new_enabled {
                Some(e) => e,
                None => enabled,
            },
            updated_at: now,
        }
    }
}

/// An update of an organization of the calling app at `now`: the
/// organization must be found among the app's (`org` is `None` when not);
/// a new name that differs from the current one must be free among the
/// app's other organizations (`name_taken_by_other`); then the organization
/// as updated, to be written in place of the stored one.
pub fn update_organization<S>(
    org: Option<OrganizationRecord<S>>,
    req: UpdateOrganizationRequest<S>,
    name_taken_by_other: bool,
    now: i64,
) -> (r: Result<OrganizationRecord<S>, AppError>)
    ensures
        org is None ==> (r matches Err(AppError::NotFound(m)) && m@ == "Organization not found"@),
        org matches Some(o) ==> (if (req.name matches Some(n) && n@ != o.name@ && name_taken_by_other) {
            r matches Err(AppError::Conflict(m)) && req.name matches Some(n) && m@ == name_taken_text(n@)
        } else {
            r matches Ok(u) && is_org_update(u, o, req, now)
        }),
{
    let o = match org {
        None => return Err(AppError::NotFound("Organization not found".to_owned())),
        Some(o) => o,
    };
    let checked = match &req.name {
        Some(n) => check_rename(o.name.as_str(), Some(n.as_str()), name_taken_by_other),
        None => Ok(()),
    };
    match checked {
        Err(e) => Err(e),
        Ok(()) => Ok(o.apply_update(req, now)),
    }
}

} // verus!
