//! Field checks of request bodies, made with the validator crate's email
//! and length rules, and the summary text of the fields that failed.
use vstd::prelude::*;

use crate::text::{chars_of, concat_chars, string_of};

verus! {

broadcast use vstd::string::group_string_axioms;

/// Whether `s` is an email address by the validator crate's rule (the HTML5
/// form of an address, with an IDN domain allowed).
pub uninterp spec fn email_accepted(s: Seq<char>) -> bool;

/// `validator::validate_email`: whether `s` is an email address by the HTML5
/// rule. The contract names the result; of it, it states what the source
/// checks first: an empty text, or one without `@`, is refused.
#[verifier::external_body]
fn validator_email(s: &str) -> (r: bool)
    ensures
        r == email_accepted(s@),
        r ==> s@.len() > 0 && s@.contains('@'),
{
    validator::validate_email(s)
}

/// A length in characters lies within the optional bounds.
pub open spec fn length_within(n: nat, min: Option<u64>, max: Option<u64>) -> bool {
    &&& (min matches Some(m) ==> n >= m)
    &&& (max matches Some(m) ==> n <= m)
}

/// `validator::validate_length` on a string with no `equal` bound: whether
/// its number of characters lies within the bounds.
#[verifier::external_body]
fn validator_length(s: &str, min: Option<u64>, max: Option<u64>) -> (r: bool)
    ensures
        r == length_within(s@.len(), min, max),
{
    validator::validate_length(s, min, max, None)
}

/// A field of a request body that failed its check, with the check's message.
#[derive(Clone, Debug, PartialEq, Eq)]
pub struct FieldError {
    pub field: String,
    pub message: String,
}

/// The refusal of one field.
pub open spec fn field_error_is(e: FieldError, field: Seq<char>, message: Seq<char>) -> bool {
    e.field@ == field && e.message@ == message
}

/// Records the refusal of `field` when `ok` is false.
pub fn note_field(errs: &mut Vec<FieldError>, ok: bool, field: &str, message: &str)
    ensures
        ok ==> final(errs)@ == old(errs)@,
        !ok ==> final(errs)@.len() == old(errs)@.len() + 1 && final(errs)@.drop_last() == old(
            errs,
        )@ && field_error_is(final(errs)@.last(), field@, message@),
{
    if !ok {
        errs.push(FieldError { field: field.to_owned(), message: message.to_owned() });
    }
}

/// Whether `s` is an email address (see `email_accepted`).
pub fn is_email(s: &str) -> (r: bool)
    ensures
        r == email_accepted(s@),
        r ==> s@.len() > 0 && s@.contains('@'),
{
    validator_email(s)
}

/// Whether the number of characters of `s` lies within the bounds.
pub fn length_ok(s: &str, min: Option<u64>, max: Option<u64>) -> (r: bool)
    ensures
        r == length_within(s@.len(), min, max),
{
    validator_length(s, min, max)
}

/// The text of the failed fields, one `field: message` line each.
pub open spec fn errors_text(errs: Seq<FieldError>) -> Seq<char>
    decreases errs.len(),
{
    if errs.len() == 0 {
        Seq::<char>::empty()
    } else if errs.len() == 1 {
        errs[0].field@ + ": "@ + errs[0].message@
    } else {
        errs_text_init(errs.drop_last()) + errs.last().field@ + ": "@ + errs.last().message@
    }
}

/// The lines of all but the last, each followed by a line break.
pub open spec fn errs_text_init(errs: Seq<FieldError>) -> Seq<char>
    decreases errs.len(),
{
    if errs.len() == 0 {
        Seq::<char>::empty()
    } else {
        errs_text_init(errs.drop_last()) + errs.last().field@ + ": "@ + errs.last().message@ + "\n"@
    }
}

/// `Validation error: ` and the text of the failed fields: the body of the
/// 422 answer to an invalid request.
pub fn validation_message(errs: &Vec<FieldError>) -> (m: String)
    ensures
        m@ == "Validation error: "@ + errors_text(errs@),
{
    let mut acc = chars_of("Validation error: ");
    let ghost head = acc@;
    let n = errs.len();
    if n == 0 {
        return string_of(&acc);
    }
    let mut i: usize = 0;
    while i + 1 < n
        invariant
            n == errs.len(),
            n >= 1,
            i + 1 <= n,
            acc@ == head + errs_text_init(errs@.subrange(0, i as int)),
        decreases n - i,
    {
        let e = &errs[i];
        let line = concat_chars(
            &concat_chars(&concat_chars(&chars_of(e.field.as_str()), &chars_of(": ")), &chars_of(e.message.as_str())),
            &chars_of("\n"),
        );
        let ghost before = acc@;
        acc = concat_chars(&acc, &line);
        assert(errs@.subrange(0, i + 1).drop_last() =~= errs@.subrange(0, i as int));
        assert(acc@ =~= head + errs_text_init(errs@.subrange(0, i + 1)));
        i = i + 1;
    }
    let e = &errs[n - 1];
    let last = concat_chars(&concat_chars(&chars_of(e.field.as_str()), &chars_of(": ")), &chars_of(e.message.as_str()));
    acc = concat_chars(&acc, &last);
    proof {
        if n == 1 {
            assert(errs@.subrange(0, 0) =~= Seq::<FieldError>::empty());
        } else {
            assert(errs@.drop_last() =~= errs@.subrange(0, (n - 1) as int));
        }
    }
    assert(acc@ =~= "Validation error: "@ + errors_text(errs@));
    string_of(&acc)
}

/// The refusals of a checked body: for each check in order whose condition
/// is false, its field and message.
pub open spec fn refusals(checks: Seq<(bool, Seq<char>, Seq<char>)>) -> Seq<(Seq<char>, Seq<char>)>
    decreases checks.len(),
{
    if checks.len() == 0 {
        Seq::empty()
    } else if checks.last().0 {
        refusals(checks.drop_last())
    } else {
        refusals(checks.drop_last()).push((checks.last().1, checks.last().2))
    }
}

/// `errs` lists exactly the refusals `r`, in order.
pub open spec fn lists_refusals(errs: Seq<FieldError>, r: Seq<(Seq<char>, Seq<char>)>) -> bool {
    &&& errs.len() == r.len()
    &&& forall|i: int| 0 <= i < errs.len() ==> field_error_is(#[trigger] errs[i], r[i].0, r[i].1)
}

/// The result of checking a body whose checks are `checks`.
pub open spec fn checked(r: Result<(), Vec<FieldError>>, checks: Seq<(bool, Seq<char>, Seq<char>)>) -> bool {
    &&& (r is Ok <==> refusals(checks).len() == 0)
    &&& (r matches Err(errs) ==> lists_refusals(errs@, refusals(checks)))
}

proof fn lemma_refusals_step(
    checks: Seq<(bool, Seq<char>, Seq<char>)>,
    c: (bool, Seq<char>, Seq<char>),
)
    ensures
        refusals(checks.push(c)) == (if c.0 {
            refusals(checks)
        } else {
            refusals(checks).push((c.1, c.2))
        }),
{
    assert(checks.push(c).drop_last() =~= checks);
}

/// Appends the outcome of one check to the refusals so far.
pub(crate) fn step(
    errs: &mut Vec<FieldError>,
    ok: bool,
    field: &str,
    message: &str,
    Ghost(done): Ghost<Seq<(bool, Seq<char>, Seq<char>)>>,
)
    requires
        lists_refusals(old(errs)@, refusals(done)),
    ensures
        lists_refusals(final(errs)@, refusals(done.push((ok, field@, message@)))),
{
    proof {
        lemma_refusals_step(done, (ok, field@, message@));
    }
    let ghost before = errs@;
    note_field(errs, ok, field, message);
    proof {
        if !ok {
            assert forall|i: int| 0 <= i < errs@.len() implies field_error_is(
                #[trigger] errs@[i],
                refusals(done.push((ok, field@, message@)))[i].0,
                refusals(done.push((ok, field@, message@)))[i].1,
            ) by {
                if i < before.len() {
                    assert(errs@[i] == errs@.drop_last()[i]);
                }
            }
        }
    }
}

pub(crate) fn finish(errs: Vec<FieldError>, Ghost(done): Ghost<Seq<(bool, Seq<char>, Seq<char>)>>) -> (r: Result<
    (),
    Vec<FieldError>,
>)
    requires
        lists_refusals(errs@, refusals(done)),
    ensures
        checked(r, done),
{
    if errs.len() == 0 {
        Ok(())
    } else {
        Err(errs)
    }
}

} // verus!
