//! Assistants: identifier types, lookup by name, and the gateway model with
//! its load-or-create logic.
//!
//! The remote service owns the assistant resources; this module models the
//! part of its behaviour that the client's decisions depend on. The
//! [`GatewayModel`] is a local, call-recording picture of the remote
//! directory: a list of assistants, a pool of identifiers the service will
//! assign next, and counters of the create and delete calls issued. The
//! load-or-create logic runs against it and is proved idempotent under
//! reuse and fresh under recreation.

use vstd::prelude::*;
use crate::error::Error;

verus! {

/// Input value object used only to request creation of an assistant: a
/// human-readable display name (the lookup key for load-or-create) and a
/// model identifier.
pub struct CreateConfig {
    pub name: String,
    pub model: String,
}

/// Opaque identifier of an assistant resource. Distinct from the other
/// identifier kinds by type, so the kinds cannot be mixed across calls.
#[derive(Debug)]
pub struct AsstId(pub String);

/// Opaque identifier of a conversation thread.
#[derive(Debug)]
pub struct ThreadId(pub String);

/// Opaque identifier of an uploaded file.
#[derive(Debug)]
pub struct FileId(pub String);

impl View for AsstId {
    type V = Seq<char>;

    open spec fn view(&self) -> Seq<char> {
        self.0@
    }
}

impl View for ThreadId {
    type V = Seq<char>;

    open spec fn view(&self) -> Seq<char> {
        self.0@
    }
}

impl View for FileId {
    type V = Seq<char>;

    open spec fn view(&self) -> Seq<char> {
        self.0@
    }
}

impl From<String> for AsstId {
    fn from(s: String) -> (r: AsstId) {
        AsstId(s)
    }
}

impl vstd::std_specs::convert::FromSpecImpl<String> for AsstId {
    open spec fn obeys_from_spec() -> bool {
        true
    }

    open spec fn from_spec(s: String) -> AsstId {
        AsstId(s)
    }
}

impl From<String> for ThreadId {
    fn from(s: String) -> (r: ThreadId) {
        ThreadId(s)
    }
}

impl vstd::std_specs::convert::FromSpecImpl<String> for ThreadId {
    open spec fn obeys_from_spec() -> bool {
        true
    }

    open spec fn from_spec(s: String) -> ThreadId {
        ThreadId(s)
    }
}

impl From<String> for FileId {
    fn from(s: String) -> (r: FileId) {
        FileId(s)
    }
}

impl vstd::std_specs::convert::FromSpecImpl<String> for FileId {
    open spec fn obeys_from_spec() -> bool {
        true
    }

    open spec fn from_spec(s: String) -> FileId {
        FileId(s)
    }
}

/// What the client reads of one remote assistant: its identifier, its
/// display name (absent when the resource was created without one), and its
/// instruction text.
#[derive(Debug, PartialEq)]
pub struct AsstSummary {
    pub id: String,
    pub name: Option<String>,
    pub instructions: Option<String>,
}

fn clone_opt_string(o: &Option<String>) -> (r: Option<String>)
    ensures
        r == *o,
{
    match o {
        Some(s) => Some(s.clone()),
        None => None,
    }
}

impl Clone for AsstSummary {
    fn clone(&self) -> (res: Self)
        ensures
            res == *self,
    {
        AsstSummary {
            id: self.id.clone(),
            name: clone_opt_string(&self.name),
            instructions: clone_opt_string(&self.instructions),
        }
    }
}

/// True when the assistant's display name is exactly `name`. The match is
/// case-sensitive and exact, never a substring match; an assistant without
/// a name matches nothing.
pub open spec fn matches_name(a: AsstSummary, name: Seq<char>) -> bool {
    a.name matches Some(n) && n@ == name
}

/// True when `i` indexes the first assistant of `s` named `name`.
pub open spec fn is_first_match(s: Seq<AsstSummary>, name: Seq<char>, i: int) -> bool {
    &&& 0 <= i < s.len()
    &&& matches_name(s[i], name)
    &&& forall|j: int| 0 <= j < i ==> !matches_name(#[trigger] s[j], name)
}

/// True when some assistant of `s` is named `name`.
pub open spec fn has_match(s: Seq<AsstSummary>, name: Seq<char>) -> bool {
    exists|i: int| 0 <= i < s.len() && matches_name(#[trigger] s[i], name)
}

/// Two first matches are the same index.
proof fn lemma_first_match_unique(s: Seq<AsstSummary>, name: Seq<char>, i1: int, i2: int)
    requires
        is_first_match(s, name, i1),
        is_first_match(s, name, i2),
    ensures
        i1 == i2,
{
}

/// Returns the first assistant of the fetched page whose display name is
/// exactly `name`, or `None` when no name matches. Only the given page is
/// inspected; the lookup does not paginate beyond it.
pub fn first_by_name(assts: &Vec<AsstSummary>, name: &String) -> (r: Option<AsstSummary>)
    ensures
        match r {
            Some(a) => exists|i: int| is_first_match(assts@, name@, i) && a == (#[trigger] assts@[i]),
            None => !has_match(assts@, name@),
        },
{
    let mut i: usize = 0;
    while i < assts.len()
        invariant
            0 <= i <= assts@.len(),
            forall|j: int| 0 <= j < i ==> !matches_name(#[trigger] assts@[j], name@),
        decreases assts@.len() - i,
    {
        let is_hit = match &assts[i].name {
            Some(n) => n.eq(name),
            None => false,
        };
        if is_hit {
            assert(is_first_match(assts@, name@, i as int));
            return Some(assts[i].clone());
        }
        i = i + 1;
    }
    None
}

/// True when `i` indexes the assistant of `s` whose identifier is `id`.
pub open spec fn id_at(s: Seq<AsstSummary>, id: Seq<char>, i: int) -> bool {
    0 <= i < s.len() && s[i].id@ == id
}

/// True when some assistant of `s` has the identifier `id`.
pub open spec fn has_id(s: Seq<AsstSummary>, id: Seq<char>) -> bool {
    exists|i: int| id_at(s, id, i)
}

/// A local, call-recording model of the remote assistant directory.
///
/// `assts` is the directory in creation order; `fresh_ids` is the pool of
/// identifiers the service will assign, the last one first; `n_created` and
/// `n_deleted` count the create and delete calls issued against the model.
/// Well-formedness ([`GatewayModel::wf`]) keeps all identifiers distinct, as
/// the remote service does.
pub struct GatewayModel {
    pub assts: Vec<AsstSummary>,
    pub fresh_ids: Vec<String>,
    pub n_created: usize,
    pub n_deleted: usize,
}

/// The assistant that a create call with `config` adds when the service
/// assigns it the identifier `id`: named, without instructions.
pub open spec fn new_asst(id: String, config: CreateConfig) -> AsstSummary {
    AsstSummary { id: id, name: Some(config.name), instructions: None }
}

impl GatewayModel {
    /// Directory identifiers are pairwise distinct, the identifiers still to
    /// be assigned are pairwise distinct, and no identifier is assigned
    /// twice.
    pub open spec fn wf(self) -> bool {
        &&& forall|i: int, j: int|
            #![trigger self.assts@[i], self.assts@[j]]
            0 <= i < j < self.assts@.len() ==> self.assts@[i].id@ != self.assts@[j].id@
        &&& forall|i: int, j: int|
            #![trigger self.fresh_ids@[i], self.fresh_ids@[j]]
            0 <= i < j < self.fresh_ids@.len() ==> self.fresh_ids@[i]@ != self.fresh_ids@[j]@
        &&& forall|i: int, j: int|
            #![trigger self.fresh_ids@[i], self.assts@[j]]
            0 <= i < self.fresh_ids@.len() && 0 <= j < self.assts@.len()
                ==> self.fresh_ids@[i]@ != self.assts@[j].id@
    }
}

/// What a create call does: the next identifier of the pool is assigned to
/// a new, named assistant appended to the directory, and one create call is
/// recorded.
pub open spec fn create_outcome(
    pre: GatewayModel,
    config: CreateConfig,
    id: String,
    post: GatewayModel,
) -> bool {
    &&& pre.fresh_ids@.len() > 0
    &&& id == pre.fresh_ids@.last()
    &&& post.fresh_ids@ == pre.fresh_ids@.drop_last()
    &&& post.assts@ == pre.assts@.push(new_asst(id, config))
    &&& post.n_created == pre.n_created + 1
    &&& post.n_deleted == pre.n_deleted
}

/// What a delete call does: the assistant carrying the identifier leaves
/// the directory (a missing identifier leaves it unchanged), and one delete
/// call is recorded.
pub open spec fn delete_outcome(pre: GatewayModel, id: Seq<char>, post: GatewayModel) -> bool {
    &&& post.fresh_ids@ == pre.fresh_ids@
    &&& post.n_created == pre.n_created
    &&& post.n_deleted == pre.n_deleted + 1
    &&& if has_id(pre.assts@, id) {
        exists|i: int| id_at(pre.assts@, id, i) && post.assts@ == pre.assts@.remove(i)
    } else {
        post.assts@ == pre.assts@
    }
}

/// What an update-instructions call does: the assistant carrying the
/// identifier gets the new instruction text and everything else stands; a
/// missing identifier is reported and changes nothing.
pub open spec fn upload_outcome(
    pre: GatewayModel,
    id: Seq<char>,
    inst: String,
    r: Result<(), Error>,
    post: GatewayModel,
) -> bool {
    &&& post.fresh_ids@ == pre.fresh_ids@
    &&& post.n_created == pre.n_created
    &&& post.n_deleted == pre.n_deleted
    &&& if has_id(pre.assts@, id) {
        &&& r is Ok
        &&& exists|i: int|
            id_at(pre.assts@, id, i) && post.assts@ == pre.assts@.update(
                i,
                AsstSummary {
                    id: pre.assts@[i].id,
                    name: pre.assts@[i].name,
                    instructions: Some(inst),
                },
            )
    } else {
        &&& r == Err::<(), Error>(Error::NotFound)
        &&& post.assts@ == pre.assts@
    }
}

/// What a load-or-create call does, by case.
///
/// - No assistant carries the name: one create call, no delete call,
///   whatever `recreate` is; the returned identifier is the fresh one.
/// - The name is taken and `recreate` is false: the identifier of the first
///   same-named assistant is returned unchanged, and nothing else happens.
/// - The name is taken and `recreate` is true: the first same-named
///   assistant is deleted, then one assistant is created; the returned
///   identifier is the fresh one.
pub open spec fn load_outcome(
    pre: GatewayModel,
    config: CreateConfig,
    recreate: bool,
    id: String,
    post: GatewayModel,
) -> bool {
    let name = config.name@;
    if !has_match(pre.assts@, name) {
        create_outcome(pre, config, id, post)
    } else if !recreate {
        &&& (exists|i: int|
            is_first_match(pre.assts@, name, i) && id == (#[trigger] pre.assts@[i]).id)
        &&& post.assts@ == pre.assts@
        &&& post.fresh_ids@ == pre.fresh_ids@
        &&& post.n_created == pre.n_created
        &&& post.n_deleted == pre.n_deleted
    } else {
        &&& pre.fresh_ids@.len() > 0
        &&& id == pre.fresh_ids@.last()
        &&& post.fresh_ids@ == pre.fresh_ids@.drop_last()
        &&& (exists|i: int|
            is_first_match(pre.assts@, name, i) && post.assts@ == pre.assts@.remove(i).push(
                new_asst(id, config),
            ))
        &&& post.n_created == pre.n_created + 1
        &&& post.n_deleted == pre.n_deleted + 1
    }
}

/// A model whose directory identifiers all stand in another's keeps
/// well-formedness when the identifier pool is unchanged.
proof fn lemma_wf_ids_kept(pre: GatewayModel, post: GatewayModel)
    requires
        pre.wf(),
        post.fresh_ids@ == pre.fresh_ids@,
        post.assts@.len() == pre.assts@.len(),
        forall|j: int|
            0 <= j < post.assts@.len() ==> (#[trigger] post.assts@[j]).id == pre.assts@[j].id,
    ensures
        post.wf(),
{
    assert forall|i: int, j: int|
        0 <= i < j < post.assts@.len() implies (#[trigger] post.assts@[i]).id@ != (
    #[trigger] post.assts@[j]).id@ by {
        assert(pre.assts@[i].id@ != pre.assts@[j].id@);
    }
    assert forall|i: int, j: int|
        0 <= i < post.fresh_ids@.len() && 0 <= j < post.assts@.len() implies (
    #[trigger] post.fresh_ids@[i])@ != (#[trigger] post.assts@[j]).id@ by {
        assert(pre.fresh_ids@[i]@ != pre.assts@[j].id@);
    }
}

/// Removing one assistant keeps the model well-formed.
proof fn lemma_wf_after_remove(pre: GatewayModel, post: GatewayModel, k: int)
    requires
        pre.wf(),
        0 <= k < pre.assts@.len(),
        post.assts@ == pre.assts@.remove(k),
        post.fresh_ids@ == pre.fresh_ids@,
    ensures
        post.wf(),
{
    assert forall|i: int, j: int|
        0 <= i < j < post.assts@.len() implies (#[trigger] post.assts@[i]).id@ != (
    #[trigger] post.assts@[j]).id@ by {
        assert(post.assts@[i] == if i < k {
            pre.assts@[i]
        } else {
            pre.assts@[i + 1]
        });
        assert(post.assts@[j] == if j < k {
            pre.assts@[j]
        } else {
            pre.assts@[j + 1]
        });
    }
    assert forall|i: int, j: int|
        0 <= i < post.fresh_ids@.len() && 0 <= j < post.assts@.len() implies (
    #[trigger] post.fresh_ids@[i])@ != (#[trigger] post.assts@[j]).id@ by {
        assert(post.assts@[j] == if j < k {
            pre.assts@[j]
        } else {
            pre.assts@[j + 1]
        });
    }
}

impl GatewayModel {
    /// Requests creation of a new assistant with the given display name and
    /// model identifier.
    pub fn create_asst(&mut self, config: &CreateConfig) -> (r: AsstId)
        requires
            old(self).fresh_ids@.len() > 0,
            old(self).n_created < usize::MAX,
        ensures
            create_outcome(*old(self), *config, r.0, *final(self)),
            old(self).wf() ==> final(self).wf(),
    {
        let ghost pre = *old(self);
        let id = self.fresh_ids.pop().unwrap();
        let entry = AsstSummary {
            id: id.clone(),
            name: Some(config.name.clone()),
            instructions: None,
        };
        self.assts.push(entry);
        self.n_created = self.n_created + 1;
        proof {
            assert(self.fresh_ids@ =~= pre.fresh_ids@.drop_last());
            if pre.wf() {
                let post = *self;
                assert forall|i: int, j: int|
                    0 <= i < j < post.assts@.len() implies (#[trigger] post.assts@[i]).id@ != (
                #[trigger] post.assts@[j]).id@ by {
                    if j < pre.assts@.len() {
                        assert(pre.assts@[i].id@ != pre.assts@[j].id@);
                    } else {
                        assert(post.assts@[j].id == id);
                        assert(pre.fresh_ids@[pre.fresh_ids@.len() - 1]@ != pre.assts@[i].id@);
                    }
                }
                assert forall|i: int, j: int|
                    0 <= i < post.fresh_ids@.len() && 0 <= j < post.assts@.len() implies (
                #[trigger] post.fresh_ids@[i])@ != (#[trigger] post.assts@[j]).id@ by {
                    assert(post.fresh_ids@[i] == pre.fresh_ids@[i]);
                    if j < pre.assts@.len() {
                        assert(pre.fresh_ids@[i]@ != pre.assts@[j].id@);
                    } else {
                        assert(pre.fresh_ids@[i]@ != pre.fresh_ids@[pre.fresh_ids@.len() - 1]@);
                    }
                }
            }
        }
        AsstId(id)
    }

    /// Requests deletion of the assistant carrying the identifier. Files
    /// attached to the assistant are not cascade-deleted.
    pub fn delete(&mut self, asst_id: &AsstId)
        requires
            old(self).n_deleted < usize::MAX,
        ensures
            delete_outcome(*old(self), asst_id@, *final(self)),
            old(self).wf() ==> final(self).wf(),
    {
        let ghost pre = *old(self);
        let mut i: usize = 0;
        let n = self.assts.len();
        while i < n
            invariant
                *self == pre,
                n == pre.assts@.len(),
                0 <= i <= n,
                forall|j: int| 0 <= j < i ==> !id_at(pre.assts@, asst_id@, j),
            decreases n - i,
        {
            if self.assts[i].id.eq(&asst_id.0) {
                assert(id_at(pre.assts@, asst_id@, i as int));
                self.assts.remove(i);
                self.n_deleted = self.n_deleted + 1;
                proof {
                    if pre.wf() {
                        lemma_wf_after_remove(pre, *self, i as int);
                    }
                }
                return;
            }
            i = i + 1;
        }
        assert(!has_id(pre.assts@, asst_id@));
        self.n_deleted = self.n_deleted + 1;
    }

    /// Overwrites the assistant's instruction text through a partial
    /// update; nothing verifies afterwards that the update took effect. A
    /// missing identifier is reported as `NotFound` where the remote
    /// service would fail the call.
    pub fn upload_instructions(&mut self, asst_id: &AsstId, inst_content: String) -> (r: Result<
        (),
        Error,
    >)
        ensures
            upload_outcome(*old(self), asst_id@, inst_content, r, *final(self)),
            old(self).wf() ==> final(self).wf(),
    {
        let ghost pre = *old(self);
        let mut i: usize = 0;
        let n = self.assts.len();
        while i < n
            invariant
                *self == pre,
                n == pre.assts@.len(),
                0 <= i <= n,
                forall|j: int| 0 <= j < i ==> !id_at(pre.assts@, asst_id@, j),
            decreases n - i,
        {
            if self.assts[i].id.eq(&asst_id.0) {
                assert(id_at(pre.assts@, asst_id@, i as int));
                let updated = AsstSummary {
                    id: self.assts[i].id.clone(),
                    name: clone_opt_string(&self.assts[i].name),
                    instructions: Some(inst_content),
                };
                self.assts[i] = updated;
                proof {
                    if pre.wf() {
                        assert forall|j: int|
                            0 <= j < self.assts@.len() implies (#[trigger] self.assts@[j]).id
                            == pre.assts@[j].id by {}
                        lemma_wf_ids_kept(pre, *self);
                    }
                }
                return Ok(());
            }
            i = i + 1;
        }
        assert(!has_id(pre.assts@, asst_id@));
        Err(Error::NotFound)
    }

    /// Loads the assistant by name, or creates it.
    ///
    /// With `recreate` false, a same-named assistant is reused and its
    /// identifier returned unchanged; with `recreate` true, the same-named
    /// assistant is deleted first; in either case, when none remains, a new
    /// assistant is created. The lookup inspects the directory as
    /// [`first_by_name`] does. A concurrent caller could still race this
    /// lookup-then-act sequence; the remote service gives it no atomicity.
    pub fn load_or_create_asst(&mut self, config: &CreateConfig, recreate: bool) -> (r: AsstId)
        requires
            old(self).wf(),
            old(self).fresh_ids@.len() > 0,
            old(self).n_created < usize::MAX,
            old(self).n_deleted < usize::MAX,
        ensures
            load_outcome(*old(self), *config, recreate, r.0, *final(self)),
            final(self).wf(),
    {
        let ghost pre = *old(self);
        let found = first_by_name(&self.assts, &config.name);
        match found {
            Some(a) => {
                let ghost ga = a;
                let ghost fi = choose|i: int|
                    is_first_match(pre.assts@, config.name@, i) && ga == pre.assts@[i];
                if recreate {
                    let doomed = AsstId(a.id);
                    self.delete(&doomed);
                    proof {
                        assert(id_at(pre.assts@, doomed@, fi));
                        let k = choose|k: int|
                            id_at(pre.assts@, doomed@, k) && self.assts@ == pre.assts@.remove(k);
                        if k != fi {
                            assert(pre.assts@[k].id@ == pre.assts@[fi].id@);
                            assert(false);
                        }
                        assert(self.assts@ == pre.assts@.remove(fi));
                    }
                    let fresh = self.create_asst(config);
                    proof {
                        assert(is_first_match(pre.assts@, config.name@, fi) && self.assts@
                            == pre.assts@.remove(fi).push(new_asst(fresh.0, *config)));
                    }
                    fresh
                } else {
                    AsstId(a.id)
                }
            },
            None => self.create_asst(config),
        }
    }
}

/// The action that a load-or-create call takes once the name lookup has
/// reported whether a same-named assistant exists.
#[derive(Debug, PartialEq)]
pub enum LoadPlan {
    /// Reuse the assistant that was found.
    Load,
    /// Delete the assistant that was found, then create a new one.
    DeleteThenCreate,
    /// Create a new assistant; there is nothing to delete.
    Create,
}

/// Decides the load-or-create action from the lookup result and the
/// `recreate` flag.
pub fn load_or_create_plan(found: bool, recreate: bool) -> (p: LoadPlan)
    ensures
        p is Load <==> (found && !recreate),
        p is DeleteThenCreate <==> (found && recreate),
        p is Create <==> !found,
{
    if found {
        if recreate {
            LoadPlan::DeleteThenCreate
        } else {
            LoadPlan::Load
        }
    } else {
        LoadPlan::Create
    }
}

/// Law: load-or-create is idempotent under reuse. Two consecutive calls
/// with the same name and `recreate` false return the same identifier, and
/// the second call issues no create and no delete call.
pub proof fn lemma_load_or_create_idempotent(
    pre: GatewayModel,
    mid: GatewayModel,
    post: GatewayModel,
    config: CreateConfig,
    id1: String,
    id2: String,
)
    requires
        load_outcome(pre, config, false, id1, mid),
        load_outcome(mid, config, false, id2, post),
    ensures
        id2 == id1,
        post.n_created == mid.n_created,
        post.n_deleted == mid.n_deleted,
{
    let name = config.name@;
    if has_match(pre.assts@, name) {
        let i1 = choose|i: int| is_first_match(pre.assts@, name, i) && id1 == pre.assts@[i].id;
        let i2 = choose|i: int| is_first_match(mid.assts@, name, i) && id2 == mid.assts@[i].id;
        lemma_first_match_unique(pre.assts@, name, i1, i2);
    } else {
        let e = new_asst(id1, config);
        let n = pre.assts@.len() as int;
        assert(mid.assts@[n] == e);
        assert(matches_name(e, name));
        assert forall|j: int| 0 <= j < n implies !matches_name(#[trigger] mid.assts@[j], name) by {
            assert(mid.assts@[j] == pre.assts@[j]);
            if matches_name(pre.assts@[j], name) {
                assert(has_match(pre.assts@, name));
            }
        }
        assert(is_first_match(mid.assts@, name, n));
        assert(has_match(mid.assts@, name));
        let i2 = choose|i: int| is_first_match(mid.assts@, name, i) && id2 == mid.assts@[i].id;
        lemma_first_match_unique(mid.assts@, name, i2, n);
        assert(id2 == e.id);
    }
}

/// Law: load-or-create under recreation is fresh. When a same-named
/// assistant exists and `recreate` is true, exactly one delete call and
/// exactly one create call are issued, and the returned identifier differs
/// from every identifier the directory held before the call — in
/// particular from the deleted one.
pub proof fn lemma_load_or_create_recreates_fresh(
    pre: GatewayModel,
    post: GatewayModel,
    config: CreateConfig,
    id: String,
)
    requires
        pre.wf(),
        has_match(pre.assts@, config.name@),
        load_outcome(pre, config, true, id, post),
    ensures
        post.n_deleted == pre.n_deleted + 1,
        post.n_created == pre.n_created + 1,
        forall|i: int| 0 <= i < pre.assts@.len() ==> id@ != (#[trigger] pre.assts@[i]).id@,
{
    assert forall|i: int| 0 <= i < pre.assts@.len() implies id@ != (#[trigger] pre.assts@[i]).id@ by {
        assert(pre.fresh_ids@[pre.fresh_ids@.len() - 1]@ != pre.assts@[i].id@);
    }
}

/// Law: load-or-create on an absent name only creates. When no same-named
/// assistant exists, no delete call and exactly one create call are issued,
/// whatever `recreate` is.
pub proof fn lemma_load_or_create_absent(
    pre: GatewayModel,
    post: GatewayModel,
    config: CreateConfig,
    recreate: bool,
    id: String,
)
    requires
        !has_match(pre.assts@, config.name@),
        load_outcome(pre, config, recreate, id, post),
    ensures
        post.n_deleted == pre.n_deleted,
        post.n_created == pre.n_created + 1,
{
}

} // verus!
