//! Organization nodes and the tree that a tenant's flat list of nodes forms.
use vstd::prelude::*;

use crate::error::AppError;

verus! {

/// An org node as stored (identifiers are UUIDs held as `u128`, times are
/// Unix timestamps in seconds).
#[derive(Clone, Debug, PartialEq, Eq)]
pub struct OrgNode {
    pub org_node_id: u128,
    pub tenant_id: u128,
    pub parent_org_node_id: Option<u128>,
    pub node_type_code: String,
    pub node_label: String,
    pub active_flag: bool,
    pub created_utc: i64,
}

/// Org node response.
#[derive(Clone, Debug, PartialEq, Eq)]
pub struct OrgNodeResponse {
    pub org_node_id: u128,
    pub tenant_id: u128,
    pub parent_org_node_id: Option<u128>,
    pub node_type_code: String,
    pub node_label: String,
    pub active_flag: bool,
    pub created_utc: i64,
}

/// Org node tree response (with children).
pub struct OrgNodeTreeResponse {
    pub node: OrgNodeResponse,
    pub children: Vec<OrgNodeTreeResponse>,
}

/// The response that carries the fields of `n`.
pub open spec fn response_of(n: OrgNode) -> OrgNodeResponse {
    OrgNodeResponse {
        org_node_id: n.org_node_id,
        tenant_id: n.tenant_id,
        parent_org_node_id: n.parent_org_node_id,
        node_type_code: n.node_type_code,
        node_label: n.node_label,
        active_flag: n.active_flag,
        created_utc: n.created_utc,
    }
}

impl OrgNodeResponse {
    /// The response for an org node.
    pub fn from_node(node: &OrgNode) -> (r: OrgNodeResponse)
        ensures
            r@ == response_of(*node)@,
    {
        OrgNodeResponse {
            org_node_id: node.org_node_id,
            tenant_id: node.tenant_id,
            parent_org_node_id: node.parent_org_node_id,
            node_type_code: node.node_type_code.clone(),
            node_label: node.node_label.clone(),
            active_flag: node.active_flag,
            created_utc: node.created_utc,
        }
    }
}

/// The fields of a response, with its texts as character sequences.
pub struct ResponseModel {
    pub org_node_id: u128,
    pub tenant_id: u128,
    pub parent_org_node_id: Option<u128>,
    pub node_type_code: Seq<char>,
    pub node_label: Seq<char>,
    pub active_flag: bool,
    pub created_utc: i64,
}

impl View for OrgNodeResponse {
    type V = ResponseModel;

    open spec fn view(&self) -> ResponseModel {
        ResponseModel {
            org_node_id: self.org_node_id,
            tenant_id: self.tenant_id,
            parent_org_node_id: self.parent_org_node_id,
            node_type_code: self.node_type_code@,
            node_label: self.node_label@,
            active_flag: self.active_flag,
            created_utc: self.created_utc,
        }
    }
}

/// The indices, in order, of the first `n` nodes whose parent is `parent`.
pub open spec fn indices_with_parent(nodes: Seq<OrgNode>, parent: Option<u128>, n: int) -> Seq<int>
    decreases n,
{
    if n <= 0 {
        Seq::<int>::empty()
    } else {
        let prev = indices_with_parent(nodes, parent, n - 1);
        if nodes[n - 1].parent_org_node_id == parent {
            prev.push(n - 1)
        } else {
            prev
        }
    }
}

/// The indices, in order, of the nodes whose parent is the node `id`.
pub open spec fn children_of(nodes: Seq<OrgNode>, id: u128) -> Seq<int> {
    indices_with_parent(nodes, Some(id), nodes.len() as int)
}

/// The indices, in order, of the nodes without a parent.
pub open spec fn roots_of(nodes: Seq<OrgNode>) -> Seq<int> {
    indices_with_parent(nodes, None, nodes.len() as int)
}

pub proof fn lemma_indices_in_range(nodes: Seq<OrgNode>, parent: Option<u128>, n: int)
    requires
        0 <= n <= nodes.len(),
    ensures
        forall|k: int|
            0 <= k < indices_with_parent(nodes, parent, n).len() ==> 0 <= #[trigger] indices_with_parent(
                nodes,
                parent,
                n,
            )[k] < n,
        forall|k: int|
            0 <= k < indices_with_parent(nodes, parent, n).len() ==> nodes[#[trigger] indices_with_parent(
                nodes,
                parent,
                n,
            )[k]].parent_org_node_id == parent,
    decreases n,
{
    if n > 0 {
        lemma_indices_in_range(nodes, parent, n - 1);
    }
}

/// `t` is the tree of node `idx` of `nodes`, built to depth `depth`: its node
/// is that node's response, and its children are the trees of the node's
/// children, in input order (a tree of depth 0 has no children).
pub open spec fn tree_of(t: OrgNodeTreeResponse, nodes: Seq<OrgNode>, idx: int, depth: nat) -> bool
    decreases depth,
{
    &&& 0 <= idx < nodes.len()
    &&& t.node@ == response_of(nodes[idx])@
    &&& if depth == 0 {
        t.children@.len() == 0
    } else {
        let kids = children_of(nodes, nodes[idx].org_node_id);
        &&& t.children@.len() == kids.len()
        &&& forall|k: int|
            0 <= k < kids.len() ==> tree_of(#[trigger] t.children@[k], nodes, kids[k], (depth - 1) as nat)
    }
}

/// The indices, in order, of the nodes whose parent is `parent`.
fn indices_with(nodes: &Vec<OrgNode>, parent: Option<u128>) -> (r: Vec<usize>)
    ensures
        r@.len() == indices_with_parent(nodes@, parent, nodes@.len() as int).len(),
        forall|k: int|
            0 <= k < r@.len() ==> r@[k] as int == #[trigger] indices_with_parent(
                nodes@,
                parent,
                nodes@.len() as int,
            )[k],
{
    let mut r: Vec<usize> = Vec::new();
    let mut i: usize = 0;
    while i < nodes.len()
        invariant
            i <= nodes.len(),
            r@.len() == indices_with_parent(nodes@, parent, i as int).len(),
            forall|k: int|
                0 <= k < r@.len() ==> r@[k] as int == #[trigger] indices_with_parent(
                    nodes@,
                    parent,
                    i as int,
                )[k],
        decreases nodes.len() - i,
    {
        if nodes[i].parent_org_node_id == parent {
            r.push(i);
        }
        i = i + 1;
    }
    r
}

/// The tree of node `idx`, built to depth `depth`.
fn build_subtree(nodes: &Vec<OrgNode>, idx: usize, depth: usize) -> (t: OrgNodeTreeResponse)
    requires
        idx < nodes@.len(),
    ensures
        tree_of(t, nodes@, idx as int, depth as nat),
    decreases depth,
{
    let node = OrgNodeResponse::from_node(&nodes[idx]);
    let mut children: Vec<OrgNodeTreeResponse> = Vec::new();
    if depth > 0 {
        let kids = indices_with(nodes, Some(nodes[idx].org_node_id));
        let ghost want = children_of(nodes@, nodes@[idx as int].org_node_id);
        proof {
            lemma_indices_in_range(nodes@, Some(nodes@[idx as int].org_node_id), nodes@.len() as int);
        }
        let mut k: usize = 0;
        while k < kids.len()
            invariant
                idx < nodes@.len(),
                depth > 0,
                k <= kids@.len(),
                want == children_of(nodes@, nodes@[idx as int].org_node_id),
                kids@.len() == want.len(),
                forall|j: int| 0 <= j < kids@.len() ==> kids@[j] as int == #[trigger] want[j],
                forall|j: int| 0 <= j < want.len() ==> 0 <= #[trigger] want[j] < nodes@.len(),
                children@.len() == k,
                forall|j: int|
                    0 <= j < k ==> tree_of(#[trigger] children@[j], nodes@, want[j], (depth - 1) as nat),
            decreases kids@.len() - k,
        {
            assert(want[k as int] == kids@[k as int] as int);
            let c = build_subtree(nodes, kids[k], depth - 1);
            children.push(c);
            k = k + 1;
        }
    }
    OrgNodeTreeResponse { node, children }
}

/// Build the forest of org nodes: one tree per node without a parent, in
/// input order, each node's children being the nodes that name it as parent,
/// in input order. Trees are built to a depth of the number of nodes, which a
/// list with distinct node ids never exceeds.
pub fn build_org_tree(nodes: &Vec<OrgNode>) -> (r: Vec<OrgNodeTreeResponse>)
    ensures
        r@.len() == roots_of(nodes@).len(),
        forall|i: int|
            0 <= i < r@.len() ==> tree_of(
                #[trigger] r@[i],
                nodes@,
                roots_of(nodes@)[i],
                nodes@.len() as nat,
            ),
{
    let roots = indices_with(nodes, None);
    proof {
        lemma_indices_in_range(nodes@, None, nodes@.len() as int);
    }
    let mut r: Vec<OrgNodeTreeResponse> = Vec::new();
    let mut i: usize = 0;
    while i < roots.len()
        invariant
            i <= roots@.len(),
            roots@.len() == roots_of(nodes@).len(),
            forall|j: int| 0 <= j < roots@.len() ==> roots@[j] as int == #[trigger] roots_of(nodes@)[j],
            forall|j: int|
                0 <= j < roots_of(nodes@).len() ==> 0 <= #[trigger] roots_of(nodes@)[j] < nodes@.len(),
            r@.len() == i,
            forall|j: int|
                0 <= j < i ==> tree_of(
                    #[trigger] r@[j],
                    nodes@,
                    roots_of(nodes@)[j],
                    nodes@.len() as nat,
                ),
        decreases roots@.len() - i,
    {
        assert(roots_of(nodes@)[i as int] == roots@[i as int] as int);
        let t = build_subtree(nodes, roots[i], nodes.len());
        r.push(t);
        i = i + 1;
    }
    r
}

/// Request to create a new org node.
#[derive(Clone, Debug, PartialEq, Eq)]
pub struct CreateOrgNodeRequest {
    pub tenant_id: u128,
    pub parent_org_node_id: Option<u128>,
    pub node_type_code: String,
    pub node_label: String,
}

/// Request to update an org node.
#[derive(Clone, Debug, PartialEq, Eq)]
pub struct UpdateOrgNodeRequest {
    pub org_node_label: Option<String>,
}

/// The checks of a new org node against the store: its tenant must exist
/// and be active (`None` when not found); a parent, when one is named, must
/// exist (`parent_tenant` is `None` when not found) and belong to the same
/// tenant.
pub fn check_new_org_node(
    req: &CreateOrgNodeRequest,
    tenant_active: Option<bool>,
    parent_tenant: Option<u128>,
) -> (r: Result<(), AppError>)
    ensures
        tenant_active is None ==> (r matches Err(AppError::NotFound(m)) && m@ == "Tenant not found"@),
        tenant_active == Some(false) ==> (r matches Err(AppError::BadRequest(m)) && m@
            == "Tenant is suspended"@),
        tenant_active == Some(true) && req.parent_org_node_id is Some && parent_tenant is None ==> (r matches Err(
            AppError::NotFound(m),
        ) && m@ == "Parent org node not found"@),
        tenant_active == Some(true) && req.parent_org_node_id is Some && parent_tenant is Some
            && parent_tenant != Some(req.tenant_id) ==> (r matches Err(AppError::BadRequest(m)) && m@
            == "Parent org node belongs to different tenant"@),
        r is Ok <==> (tenant_active == Some(true) && (req.parent_org_node_id is Some ==> parent_tenant
            == Some(req.tenant_id))),
{
    match tenant_active {
        None => return Err(AppError::NotFound("Tenant not found".to_owned())),
        Some(false) => return Err(AppError::BadRequest("Tenant is suspended".to_owned())),
        Some(true) => {},
    }
    if req.parent_org_node_id.is_some() {
        match parent_tenant {
            None => return Err(AppError::NotFound("Parent org node not found".to_owned())),
            Some(t) => {
                if t != req.tenant_id {
                    return Err(
                        AppError::BadRequest("Parent org node belongs to different tenant".to_owned()),
                    );
                }
            },
        }
    }
    Ok(())
}

/// The node ids of `nodes` are pairwise distinct.
pub open spec fn distinct_ids(nodes: Seq<OrgNode>) -> bool {
    forall|i: int, j: int|
        0 <= i < j < nodes.len() ==> (#[trigger] nodes[i]).org_node_id != (#[trigger] nodes[j]).org_node_id
}

/// `p` is a path down the forest: it starts at a root, and each next node
/// names the previous one as its parent.
pub open spec fn is_path(nodes: Seq<OrgNode>, p: Seq<int>) -> bool {
    &&& p.len() >= 1
    &&& forall|k: int| 0 <= k < p.len() ==> 0 <= #[trigger] p[k] < nodes.len()
    &&& nodes[p[0]].parent_org_node_id is None
    &&& forall|k: int|
        1 <= k < p.len() ==> nodes[#[trigger] p[k]].parent_org_node_id == Some(
            nodes[p[k - 1]].org_node_id,
        )
}

proof fn lemma_path_no_repeat(nodes: Seq<OrgNode>, p: Seq<int>, a: int, b: int)
    requires
        distinct_ids(nodes),
        is_path(nodes, p),
        0 <= a < b < p.len(),
    ensures
        p[a] != p[b],
    decreases a,
{
    if p[a] != p[b] {
    } else if a == 0 {
        assert(nodes[p[b]].parent_org_node_id == Some(nodes[p[b - 1]].org_node_id));
    } else {
        assert(nodes[p[a]].parent_org_node_id == Some(nodes[p[a - 1]].org_node_id));
        assert(nodes[p[b]].parent_org_node_id == Some(nodes[p[b - 1]].org_node_id));
        let x = p[a - 1];
        let y = p[b - 1];
        if x != y {
            if x < y {
                assert(nodes[x].org_node_id != nodes[y].org_node_id);
            } else {
                assert(nodes[y].org_node_id != nodes[x].org_node_id);
            }
        }
        lemma_path_no_repeat(nodes, p, a - 1, b - 1);
    }
}

/// A path down a forest with distinct node ids visits at most every node
/// once.
proof fn lemma_path_short(nodes: Seq<OrgNode>, p: Seq<int>)
    requires
        distinct_ids(nodes),
        is_path(nodes, p),
    ensures
        p.len() <= nodes.len(),
{
    assert(p.no_duplicates()) by {
        assert forall|a: int, b: int| 0 <= a < p.len() && 0 <= b < p.len() && a != b implies p[a]
            != p[b] by {
            if p[a] == p[b] {
                if a < b {
                    lemma_path_no_repeat(nodes, p, a, b);
                } else {
                    lemma_path_no_repeat(nodes, p, b, a);
                }
            }
        }
    }
    p.unique_seq_to_set();
    vstd::set_lib::lemma_int_range(0, nodes.len() as int);
    assert(p.to_set().subset_of(vstd::set_lib::set_int_range(0, nodes.len() as int)));
    vstd::set_lib::lemma_len_subset(p.to_set(), vstd::set_lib::set_int_range(0, nodes.len() as int));
}

proof fn lemma_tree_deeper(t: OrgNodeTreeResponse, nodes: Seq<OrgNode>, p: Seq<int>, k: nat, d: nat)
    requires
        distinct_ids(nodes),
        is_path(nodes, p),
        p.len() + k >= nodes.len(),
        k <= d,
        tree_of(t, nodes, p.last(), k),
    ensures
        tree_of(t, nodes, p.last(), d),
    decreases k,
{
    let idx = p.last();
    let kids = children_of(nodes, nodes[idx].org_node_id);
    lemma_indices_in_range(nodes, Some(nodes[idx].org_node_id), nodes.len() as int);
    if k == 0 {
        if kids.len() > 0 {
            let q = p.push(kids[0]);
            assert(is_path(nodes, q)) by {
                assert forall|j: int| 1 <= j < q.len() implies nodes[#[trigger] q[j]].parent_org_node_id
                    == Some(nodes[q[j - 1]].org_node_id) by {
                    if j < p.len() {
                        assert(q[j] == p[j]);
                        assert(q[j - 1] == p[j - 1]);
                    }
                }
            }
            lemma_path_short(nodes, q);
        }
        if d > 0 {
            assert forall|j: int| 0 <= j < kids.len() implies tree_of(
                #[trigger] t.children@[j],
                nodes,
                kids[j],
                (d - 1) as nat,
            ) by {}
        }
    } else {
        assert forall|j: int| 0 <= j < kids.len() implies tree_of(
            #[trigger] t.children@[j],
            nodes,
            kids[j],
            (d - 1) as nat,
        ) by {
            let q = p.push(kids[j]);
            assert(tree_of(t.children@[j], nodes, kids[j], (k - 1) as nat));
            assert(is_path(nodes, q)) by {
                assert forall|m: int| 1 <= m < q.len() implies nodes[#[trigger] q[m]].parent_org_node_id
                    == Some(nodes[q[m - 1]].org_node_id) by {
                    if m < p.len() {
                        assert(q[m] == p[m]);
                        assert(q[m - 1] == p[m - 1]);
                    }
                }
            }
            lemma_tree_deeper(t.children@[j], nodes, q, (k - 1) as nat, (d - 1) as nat);
        }
    }
}

/// With distinct node ids nothing is cut off: the trees that
/// `build_org_tree` returns (built to the depth of the number of nodes) are
/// the trees of their roots to any greater depth, that is, the whole of
/// each root's subtree.
pub proof fn law_org_tree_complete(t: OrgNodeTreeResponse, nodes: Seq<OrgNode>, root: int, d: nat)
    requires
        distinct_ids(nodes),
        0 <= root < nodes.len(),
        nodes[root].parent_org_node_id is None,
        tree_of(t, nodes, root, nodes.len() as nat),
        nodes.len() <= d,
    ensures
        tree_of(t, nodes, root, d),
{
    let p = seq![root];
    assert(is_path(nodes, p));
    lemma_tree_deeper(t, nodes, p, nodes.len() as nat, d);
}

} // verus!
