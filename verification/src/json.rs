//! The checkpoint codec: a JSON document tree, an encoder from a batch state
//! to its document, and a decoder back. The encoder's contract states the
//! round trip — the document it produces decodes to exactly the state it was
//! given, item order preserved — so a checkpoint loses nothing. Turning the
//! tree into bytes and back is left to ordinary JSON machinery outside the
//! library; only the tree's keys are fixed here.

use vstd::prelude::*;
use crate::data::{
    BaseDataDefn, BaseDataDefnModel, BaseStateDefn, BaseStateDefnModel, BranchedRepo,
    BranchedRepoModel, DataElement, DataElementModel, LocalRepo, LocalRepoModel, PRdRepo,
    PRdRepoModel, PatchedRepo, PatchedRepoModel, RepoDefn, RepoDefnModel,
};

verus! {

/// A key of one of the objects in a batch-state document: a field name or a
/// lifecycle tag.
#[derive(Clone, Copy, Debug, PartialEq, Eq, Structural)]
pub enum JsonKey {
    Data,
    Repos,
    PrTitle,
    PrDescription,
    RemoteRepo,
    LocalRepo,
    PatchedRepo,
    BranchedRepo,
    PRdRepo,
    Owner,
    Name,
    MainBranchName,
    Defn,
    LocalPath,
    LastError,
    BranchLastError,
    Repo,
    Changes,
    Output,
    Success,
    Patched,
    BranchName,
    Committed,
    Pushed,
    Branched,
    Url,
}

/// A JSON document tree, with objects keyed by `JsonKey`.
pub enum Json {
    Null,
    Bool(bool),
    UInt(u64),
    Str(String),
    Arr(Vec<Json>),
    Obj(Vec<(JsonKey, Json)>),
}

/// The value of the last field named `k`, if any.
pub open spec fn obj_get(fields: Seq<(JsonKey, Json)>, k: JsonKey) -> Option<Json>
    decreases fields.len(),
{
    if fields.len() == 0 {
        None
    } else if fields.last().0 == k {
        Some(fields.last().1)
    } else {
        obj_get(fields.drop_last(), k)
    }
}

/// A required string field.
pub open spec fn dec_str(fields: Seq<(JsonKey, Json)>, k: JsonKey) -> Option<Seq<char>> {
    match obj_get(fields, k) {
        Some(Json::Str(s)) => Some(s@),
        _ => None,
    }
}

/// An optional string field: absent or null means none; any other non-string
/// value is rejected (the outer `Option` is the success of the decoding).
pub open spec fn dec_opt_str(fields: Seq<(JsonKey, Json)>, k: JsonKey) -> Option<
    Option<Seq<char>>,
> {
    match obj_get(fields, k) {
        None => Some(None),
        Some(Json::Null) => Some(None),
        Some(Json::Str(s)) => Some(Some(s@)),
        Some(_) => None,
    }
}

/// A required boolean field.
pub open spec fn dec_bool(fields: Seq<(JsonKey, Json)>, k: JsonKey) -> Option<bool> {
    match obj_get(fields, k) {
        Some(Json::Bool(b)) => Some(b),
        _ => None,
    }
}

/// A required count field, within the machine's word range.
pub open spec fn dec_usize(fields: Seq<(JsonKey, Json)>, k: JsonKey) -> Option<usize> {
    match obj_get(fields, k) {
        Some(Json::UInt(v)) => if v <= usize::MAX as u64 {
            Some(v as usize)
        } else {
            None
        },
        _ => None,
    }
}

/// Decodes a repository identity object.
pub open spec fn dec_defn(j: Json) -> Option<RepoDefnModel> {
    match j {
        Json::Obj(fields) => {
            match (
                dec_str(fields@, JsonKey::Owner),
                dec_str(fields@, JsonKey::Name),
                dec_opt_str(fields@, JsonKey::MainBranchName),
            ) {
                (Some(o), Some(n), Some(m)) => Some(
                    RepoDefnModel { owner: o, name: n, main_branch_name: m },
                ),
                _ => None,
            }
        },
        _ => None,
    }
}

/// Decodes a local-repository object.
pub open spec fn dec_local(j: Json) -> Option<LocalRepoModel> {
    match j {
        Json::Obj(fields) => {
            match (
                obj_get(fields@, JsonKey::Defn),
                dec_str(fields@, JsonKey::LocalPath),
                dec_opt_str(fields@, JsonKey::LastError),
            ) {
                (Some(dj), Some(p), Some(err)) => match dec_defn(dj) {
                    Some(d) => Some(
                        LocalRepoModel { defn: d, local_path: p, last_error: err },
                    ),
                    None => None,
                },
                _ => None,
            }
        },
        _ => None,
    }
}

/// Decodes a patched-repository object.
pub open spec fn dec_patched(j: Json) -> Option<PatchedRepoModel> {
    match j {
        Json::Obj(fields) => {
            match (
                obj_get(fields@, JsonKey::Repo),
                dec_usize(fields@, JsonKey::Changes),
                dec_str(fields@, JsonKey::Output),
                dec_bool(fields@, JsonKey::Success),
            ) {
                (Some(rj), Some(c), Some(o), Some(s)) => match dec_local(rj) {
                    Some(l) => Some(
                        PatchedRepoModel { repo: l, changes: c, output: o, success: s },
                    ),
                    None => None,
                },
                _ => None,
            }
        },
        _ => None,
    }
}

/// Decodes a branched-repository object.
pub open spec fn dec_branched(j: Json) -> Option<BranchedRepoModel> {
    match j {
        Json::Obj(fields) => {
            match (
                obj_get(fields@, JsonKey::Patched),
                dec_str(fields@, JsonKey::BranchName),
                dec_bool(fields@, JsonKey::Committed),
                dec_bool(fields@, JsonKey::Pushed),
                dec_opt_str(fields@, JsonKey::BranchLastError),
            ) {
                (Some(pj), Some(bn), Some(c), Some(pu), Some(err)) => match dec_patched(pj) {
                    Some(p) => Some(
                        BranchedRepoModel {
                            patched: p,
                            branch_name: bn,
                            committed: c,
                            pushed: pu,
                            last_error: err,
                        },
                    ),
                    None => None,
                },
                _ => None,
            }
        },
        _ => None,
    }
}

/// Decodes a pull-requested-repository object.
pub open spec fn dec_prd(j: Json) -> Option<PRdRepoModel> {
    match j {
        Json::Obj(fields) => {
            match (obj_get(fields@, JsonKey::Branched), dec_str(fields@, JsonKey::Url)) {
                (Some(bj), Some(u)) => match dec_branched(bj) {
                    Some(b) => Some(PRdRepoModel { branched: b, url: u }),
                    None => None,
                },
                _ => None,
            }
        },
        _ => None,
    }
}

/// Decodes one lifecycle record: an object with a single tag key.
pub open spec fn dec_element(j: Json) -> Option<DataElementModel> {
    match j {
        Json::Obj(fields) => if fields@.len() == 1 {
            let k = fields@[0].0;
            let v = fields@[0].1;
            match k {
                JsonKey::RemoteRepo => match dec_defn(v) {
                    Some(d) => Some(DataElementModel::RemoteRepo(d)),
                    None => None,
                },
                JsonKey::LocalRepo => match dec_local(v) {
                    Some(l) => Some(DataElementModel::LocalRepo(l)),
                    None => None,
                },
                JsonKey::PatchedRepo => match dec_patched(v) {
                    Some(p) => Some(DataElementModel::PatchedRepo(p)),
                    None => None,
                },
                JsonKey::BranchedRepo => match dec_branched(v) {
                    Some(b) => Some(DataElementModel::BranchedRepo(b)),
                    None => None,
                },
                JsonKey::PRdRepo => match dec_prd(v) {
                    Some(p) => Some(DataElementModel::PRdRepo(p)),
                    None => None,
                },
                _ => None,
            }
        } else {
            None
        },
        _ => None,
    }
}

/// Decodes an array of lifecycle records, in order; any bad record fails the
/// whole array.
pub open spec fn dec_elements(items: Seq<Json>) -> Option<Seq<DataElementModel>>
    decreases items.len(),
{
    if items.len() == 0 {
        Some(Seq::empty())
    } else {
        match (dec_elements(items.drop_last()), dec_element(items.last())) {
            (Some(rest), Some(e)) => Some(rest.push(e)),
            _ => None,
        }
    }
}

/// Decodes the repository-collection object.
pub open spec fn dec_data(j: Json) -> Option<BaseDataDefnModel> {
    match j {
        Json::Obj(fields) => match obj_get(fields@, JsonKey::Repos) {
            Some(Json::Arr(items)) => match dec_elements(items@) {
                Some(es) => Some(BaseDataDefnModel { repos: es }),
                None => None,
            },
            _ => None,
        },
        _ => None,
    }
}

/// Decodes a whole batch-state document.
pub open spec fn dec_state(j: Json) -> Option<BaseStateDefnModel> {
    match j {
        Json::Obj(fields) => {
            match (
                obj_get(fields@, JsonKey::Data),
                dec_opt_str(fields@, JsonKey::PrTitle),
                dec_opt_str(fields@, JsonKey::PrDescription),
            ) {
                (Some(dj), Some(t), Some(d)) => match dec_data(dj) {
                    Some(dm) => Some(
                        BaseStateDefnModel { data: dm, pr_description: d, pr_title: t },
                    ),
                    _ => None,
                },
                _ => None,
            }
        },
        _ => None,
    }
}

/// Encodes an optional string as a string or null.
fn enc_opt_str(o: Option<String>) -> (j: Json)
    ensures
        match o {
            Some(s) => j == Json::Str(s),
            None => j == Json::Null,
        },
{
    match o {
        Some(s) => Json::Str(s),
        None => Json::Null,
    }
}

/// Encodes a repository identity; the document decodes back to exactly it.
pub fn defn_to_json(d: RepoDefn) -> (j: Json)
    ensures
        dec_defn(j) == Some(d@),
{
    let ghost dm = d@;
    let mut fields: Vec<(JsonKey, Json)> = Vec::new();
    fields.push((JsonKey::Owner, Json::Str(d.owner)));
    fields.push((JsonKey::Name, Json::Str(d.name)));
    fields.push((JsonKey::MainBranchName, enc_opt_str(d.main_branch_name)));
    let j = Json::Obj(fields);
    proof {
        reveal_with_fuel(obj_get, 4);
        assert(dec_defn(j) == Some(dm));
    }
    j
}

/// Encodes a local repository; the document decodes back to exactly it.
pub fn local_to_json(l: LocalRepo) -> (j: Json)
    ensures
        dec_local(j) == Some(l@),
{
    let ghost lm = l@;
    let mut fields: Vec<(JsonKey, Json)> = Vec::new();
    fields.push((JsonKey::Defn, defn_to_json(l.defn)));
    fields.push((JsonKey::LocalPath, Json::Str(l.local_path)));
    fields.push((JsonKey::LastError, enc_opt_str(l.last_error)));
    let j = Json::Obj(fields);
    proof {
        reveal_with_fuel(obj_get, 4);
        assert(dec_local(j) == Some(lm));
    }
    j
}

/// Encodes a patched repository; the document decodes back to exactly it.
pub fn patched_to_json(p: PatchedRepo) -> (j: Json)
    ensures
        dec_patched(j) == Some(p@),
{
    let ghost pm = p@;
    let mut fields: Vec<(JsonKey, Json)> = Vec::new();
    fields.push((JsonKey::Repo, local_to_json(p.repo)));
    fields.push((JsonKey::Changes, Json::UInt(p.changes as u64)));
    fields.push((JsonKey::Output, Json::Str(p.output)));
    fields.push((JsonKey::Success, Json::Bool(p.success)));
    let j = Json::Obj(fields);
    proof {
        reveal_with_fuel(obj_get, 5);
        assert(dec_patched(j) == Some(pm));
    }
    j
}

/// Encodes a branched repository; the document decodes back to exactly it.
pub fn branched_to_json(b: BranchedRepo) -> (j: Json)
    ensures
        dec_branched(j) == Some(b@),
{
    let ghost bm = b@;
    let mut fields: Vec<(JsonKey, Json)> = Vec::new();
    fields.push((JsonKey::Patched, patched_to_json(b.patched)));
    fields.push((JsonKey::BranchName, Json::Str(b.branch_name)));
    fields.push((JsonKey::Committed, Json::Bool(b.committed)));
    fields.push((JsonKey::Pushed, Json::Bool(b.pushed)));
    fields.push((JsonKey::BranchLastError, enc_opt_str(b.last_error)));
    let j = Json::Obj(fields);
    proof {
        reveal_with_fuel(obj_get, 6);
        assert(dec_branched(j) == Some(bm));
    }
    j
}

/// Encodes a pull-requested repository; the document decodes back to it.
pub fn prd_to_json(p: PRdRepo) -> (j: Json)
    ensures
        dec_prd(j) == Some(p@),
{
    let ghost pm = p@;
    let mut fields: Vec<(JsonKey, Json)> = Vec::new();
    fields.push((JsonKey::Branched, branched_to_json(p.branched)));
    fields.push((JsonKey::Url, Json::Str(p.url)));
    let j = Json::Obj(fields);
    proof {
        reveal_with_fuel(obj_get, 3);
        assert(dec_prd(j) == Some(pm));
    }
    j
}

/// Encodes one lifecycle record as a single-tag object.
pub fn element_to_json(e: DataElement) -> (j: Json)
    ensures
        dec_element(j) == Some(e@),
{
    let ghost em = e@;
    let mut fields: Vec<(JsonKey, Json)> = Vec::new();
    match e {
        DataElement::RemoteRepo(d) => fields.push((JsonKey::RemoteRepo, defn_to_json(d))),
        DataElement::LocalRepo(l) => fields.push((JsonKey::LocalRepo, local_to_json(l))),
        DataElement::PatchedRepo(p) => fields.push((JsonKey::PatchedRepo, patched_to_json(p))),
        DataElement::BranchedRepo(b) => fields.push(
            (JsonKey::BranchedRepo, branched_to_json(b)),
        ),
        DataElement::PRdRepo(p) => fields.push((JsonKey::PRdRepo, prd_to_json(p))),
    }
    let j = Json::Obj(fields);
    proof {
        assert(dec_element(j) == Some(em));
    }
    j
}

/// Encodes a whole batch state as its checkpoint document. The contract is
/// the round trip: the document decodes back to exactly the given state,
/// with the item order preserved.
pub fn state_to_json(s: BaseStateDefn) -> (j: Json)
    ensures
        dec_state(j) == Some(s@),
{
    let ghost sm = s@;
    let BaseStateDefn { data, pr_description, pr_title } = s;
    let mut repos = data.repos;
    let ghost repos0 = repos@;
    let n = repos.len();
    let mut items: Vec<Json> = Vec::new();
    proof {
        assert(repos0.skip(0) =~= repos0);
        assert(sm.data.repos.take(0) =~= Seq::<DataElementModel>::empty());
    }
    while items.len() < n
        invariant
            n == repos0.len(),
            items@.len() <= n,
            repos@ == repos0.skip(items@.len() as int),
            sm.data.repos.len() == n,
            sm.data.repos == repos0.map_values(|e: DataElement| e@),
            dec_elements(items@) == Some(sm.data.repos.take(items@.len() as int)),
        decreases n - items@.len(),
    {
        let ghost k = items@.len() as int;
        proof {
            assert(repos0.skip(k)[0] == repos0[k]);
            assert(repos0.skip(k).remove(0) =~= repos0.skip(k + 1));
        }
        let e = repos.remove(0);
        let ghost items_before = items@;
        let ej = element_to_json(e);
        items.push(ej);
        proof {
            assert(e == repos0[k]);
            assert(sm.data.repos[k] == repos0[k]@);
            assert(items@.drop_last() =~= items_before);
            assert(items@.last() == ej);
            assert(sm.data.repos.take(k + 1) =~= sm.data.repos.take(k).push(e@));
            assert(dec_elements(items@) == Some(sm.data.repos.take(k + 1)));
        }
    }
    proof {
        assert(sm.data.repos.take(n as int) =~= sm.data.repos);
    }
    let mut data_fields: Vec<(JsonKey, Json)> = Vec::new();
    data_fields.push((JsonKey::Repos, Json::Arr(items)));
    let data_json = Json::Obj(data_fields);
    proof {
        reveal_with_fuel(obj_get, 2);
        assert(dec_data(data_json) == Some(sm.data));
    }
    let mut fields: Vec<(JsonKey, Json)> = Vec::new();
    fields.push((JsonKey::Data, data_json));
    fields.push((JsonKey::PrTitle, enc_opt_str(pr_title)));
    fields.push((JsonKey::PrDescription, enc_opt_str(pr_description)));
    let j = Json::Obj(fields);
    proof {
        reveal_with_fuel(obj_get, 4);
        assert(dec_state(j) == Some(sm));
    }
    j
}

/// Takes the fields of an object apart, keeping for each of three distinct
/// keys the value of its last occurrence.
fn fields_get3(fields: Vec<(JsonKey, Json)>, k1: JsonKey, k2: JsonKey, k3: JsonKey) -> (r: (
    Option<Json>,
    Option<Json>,
    Option<Json>,
))
    requires
        k1 != k2,
        k1 != k3,
        k2 != k3,
    ensures
        r.0 == obj_get(fields@, k1),
        r.1 == obj_get(fields@, k2),
        r.2 == obj_get(fields@, k3),
{
    let ghost fs = fields@;
    let mut rest = fields;
    let n = rest.len();
    let mut s1: Option<Json> = None;
    let mut s2: Option<Json> = None;
    let mut s3: Option<Json> = None;
    let mut i: usize = 0;
    proof {
        assert(fs.skip(0) =~= fs);
        assert(fs.take(0) =~= Seq::<(JsonKey, Json)>::empty());
    }
    while i < n
        invariant
            n == fs.len(),
            i <= n,
            rest@ == fs.skip(i as int),
            s1 == obj_get(fs.take(i as int), k1),
            s2 == obj_get(fs.take(i as int), k2),
            s3 == obj_get(fs.take(i as int), k3),
            k1 != k2,
            k1 != k3,
            k2 != k3,
        decreases fs.len() - i,
    {
        proof {
            assert(fs.skip(i as int)[0] == fs[i as int]);
            assert(fs.skip(i as int).remove(0) =~= fs.skip(i as int + 1));
            assert(fs.take(i as int + 1).drop_last() =~= fs.take(i as int));
            assert(fs.take(i as int + 1).last() == fs[i as int]);
        }
        let (k, v) = rest.remove(0);
        if k == k1 {
            s1 = Some(v);
        } else if k == k2 {
            s2 = Some(v);
        } else if k == k3 {
            s3 = Some(v);
        }
        i += 1;
    }
    proof {
        assert(fs.take(fs.len() as int) =~= fs);
    }
    (s1, s2, s3)
}

/// Takes the fields of an object apart, keeping for each of five distinct
/// keys the value of its last occurrence.
fn fields_get5(
    fields: Vec<(JsonKey, Json)>,
    k1: JsonKey,
    k2: JsonKey,
    k3: JsonKey,
    k4: JsonKey,
    k5: JsonKey,
) -> (r: (Option<Json>, Option<Json>, Option<Json>, Option<Json>, Option<Json>))
    requires
        k1 != k2,
        k1 != k3,
        k1 != k4,
        k1 != k5,
        k2 != k3,
        k2 != k4,
        k2 != k5,
        k3 != k4,
        k3 != k5,
        k4 != k5,
    ensures
        r.0 == obj_get(fields@, k1),
        r.1 == obj_get(fields@, k2),
        r.2 == obj_get(fields@, k3),
        r.3 == obj_get(fields@, k4),
        r.4 == obj_get(fields@, k5),
{
    let ghost fs = fields@;
    let mut rest = fields;
    let n = rest.len();
    let mut s1: Option<Json> = None;
    let mut s2: Option<Json> = None;
    let mut s3: Option<Json> = None;
    let mut s4: Option<Json> = None;
    let mut s5: Option<Json> = None;
    let mut i: usize = 0;
    proof {
        assert(fs.skip(0) =~= fs);
        assert(fs.take(0) =~= Seq::<(JsonKey, Json)>::empty());
    }
    while i < n
        invariant
            n == fs.len(),
            i <= n,
            rest@ == fs.skip(i as int),
            s1 == obj_get(fs.take(i as int), k1),
            s2 == obj_get(fs.take(i as int), k2),
            s3 == obj_get(fs.take(i as int), k3),
            s4 == obj_get(fs.take(i as int), k4),
            s5 == obj_get(fs.take(i as int), k5),
            k1 != k2,
            k1 != k3,
            k1 != k4,
            k1 != k5,
            k2 != k3,
            k2 != k4,
            k2 != k5,
            k3 != k4,
            k3 != k5,
            k4 != k5,
        decreases fs.len() - i,
    {
        proof {
            assert(fs.skip(i as int)[0] == fs[i as int]);
            assert(fs.skip(i as int).remove(0) =~= fs.skip(i as int + 1));
            assert(fs.take(i as int + 1).drop_last() =~= fs.take(i as int));
            assert(fs.take(i as int + 1).last() == fs[i as int]);
        }
        let (k, v) = rest.remove(0);
        if k == k1 {
            s1 = Some(v);
        } else if k == k2 {
            s2 = Some(v);
        } else if k == k3 {
            s3 = Some(v);
        } else if k == k4 {
            s4 = Some(v);
        } else if k == k5 {
            s5 = Some(v);
        }
        i += 1;
    }
    proof {
        assert(fs.take(fs.len() as int) =~= fs);
    }
    (s1, s2, s3, s4, s5)
}

/// Decodes an optional string slot.
fn opt_str_of(slot: Option<Json>) -> (r: Option<Option<String>>)
    ensures
        match r {
            Some(o) => match slot {
                None => o is None,
                Some(Json::Null) => o is None,
                Some(Json::Str(s)) => o == Some(s),
                Some(_) => false,
            },
            None => !(slot is None || slot matches Some(Json::Null) || slot matches Some(
                Json::Str(_),
            )),
        },
{
    match slot {
        None => Some(None),
        Some(Json::Null) => Some(None),
        Some(Json::Str(s)) => Some(Some(s)),
        Some(_) => None,
    }
}

/// Decodes a repository identity object.
pub fn defn_from_json(j: Json) -> (r: Option<RepoDefn>)
    ensures
        match r {
            Some(d) => dec_defn(j) == Some(d@),
            None => dec_defn(j) is None,
        },
{
    match j {
        Json::Obj(fields) => {
            let (oj, nj, mj) = fields_get3(fields, JsonKey::Owner, JsonKey::Name,
                JsonKey::MainBranchName);
            let owner = match oj {
                Some(Json::Str(s)) => s,
                _ => {
                    return None;
                },
            };
            let name = match nj {
                Some(Json::Str(s)) => s,
                _ => {
                    return None;
                },
            };
            let main_branch_name = match opt_str_of(mj) {
                Some(o) => o,
                None => {
                    return None;
                },
            };
            Some(RepoDefn { owner, name, main_branch_name })
        },
        _ => None,
    }
}

/// Decodes a local-repository object.
pub fn local_from_json(j: Json) -> (r: Option<LocalRepo>)
    ensures
        match r {
            Some(l) => dec_local(j) == Some(l@),
            None => dec_local(j) is None,
        },
{
    match j {
        Json::Obj(fields) => {
            let (dj, pj, ej) = fields_get3(fields, JsonKey::Defn, JsonKey::LocalPath,
                JsonKey::LastError);
            let dv = match dj {
                Some(v) => v,
                None => {
                    return None;
                },
            };
            let local_path = match pj {
                Some(Json::Str(s)) => s,
                _ => {
                    return None;
                },
            };
            let last_error = match opt_str_of(ej) {
                Some(o) => o,
                None => {
                    return None;
                },
            };
            match defn_from_json(dv) {
                Some(defn) => Some(LocalRepo { defn, local_path, last_error }),
                None => None,
            }
        },
        _ => None,
    }
}

/// Decodes a patched-repository object.
pub fn patched_from_json(j: Json) -> (r: Option<PatchedRepo>)
    ensures
        match r {
            Some(p) => dec_patched(j) == Some(p@),
            None => dec_patched(j) is None,
        },
{
    match j {
        Json::Obj(fields) => {
            let (rj, cj, oj, sj, _unused) = fields_get5(fields, JsonKey::Repo, JsonKey::Changes,
                JsonKey::Output, JsonKey::Success, JsonKey::Url);
            let rv = match rj {
                Some(v) => v,
                None => {
                    return None;
                },
            };
            let changes = match cj {
                Some(Json::UInt(v)) => {
                    if v <= usize::MAX as u64 {
                        v as usize
                    } else {
                        return None;
                    }
                },
                _ => {
                    return None;
                },
            };
            let output = match oj {
                Some(Json::Str(s)) => s,
                _ => {
                    return None;
                },
            };
            let success = match sj {
                Some(Json::Bool(b)) => b,
                _ => {
                    return None;
                },
            };
            match local_from_json(rv) {
                Some(repo) => Some(PatchedRepo { repo, changes, output, success }),
                None => None,
            }
        },
        _ => None,
    }
}

/// Decodes a branched-repository object.
pub fn branched_from_json(j: Json) -> (r: Option<BranchedRepo>)
    ensures
        match r {
            Some(b) => dec_branched(j) == Some(b@),
            None => dec_branched(j) is None,
        },
{
    match j {
        Json::Obj(fields) => {
            let (pj, nj, cj, uj, ej) = fields_get5(fields, JsonKey::Patched, JsonKey::BranchName,
                JsonKey::Committed, JsonKey::Pushed, JsonKey::BranchLastError);
            let pv = match pj {
                Some(v) => v,
                None => {
                    return None;
                },
            };
            let branch_name = match nj {
                Some(Json::Str(s)) => s,
                _ => {
                    return None;
                },
            };
            let committed = match cj {
                Some(Json::Bool(b)) => b,
                _ => {
                    return None;
                },
            };
            let pushed = match uj {
                Some(Json::Bool(b)) => b,
                _ => {
                    return None;
                },
            };
            let last_error = match opt_str_of(ej) {
                Some(o) => o,
                None => {
                    return None;
                },
            };
            match patched_from_json(pv) {
                Some(patched) => Some(
                    BranchedRepo { patched, branch_name, committed, pushed, last_error },
                ),
                None => None,
            }
        },
        _ => None,
    }
}

/// Decodes a pull-requested-repository object.
pub fn prd_from_json(j: Json) -> (r: Option<PRdRepo>)
    ensures
        match r {
            Some(p) => dec_prd(j) == Some(p@),
            None => dec_prd(j) is None,
        },
{
    match j {
        Json::Obj(fields) => {
            let (bj, uj, _unused) = fields_get3(fields, JsonKey::Branched, JsonKey::Url,
                JsonKey::Data);
            let bv = match bj {
                Some(v) => v,
                None => {
                    return None;
                },
            };
            let url = match uj {
                Some(Json::Str(s)) => s,
                _ => {
                    return None;
                },
            };
            match branched_from_json(bv) {
                Some(branched) => Some(PRdRepo { branched, url }),
                None => None,
            }
        },
        _ => None,
    }
}

/// Decodes one lifecycle record from its single-tag object.
pub fn element_from_json(j: Json) -> (r: Option<DataElement>)
    ensures
        match r {
            Some(e) => dec_element(j) == Some(e@),
            None => dec_element(j) is None,
        },
{
    match j {
        Json::Obj(mut fields) => {
            if fields.len() != 1 {
                return None;
            }
            let (k, v) = fields.remove(0);
            match k {
                JsonKey::RemoteRepo => match defn_from_json(v) {
                    Some(d) => Some(DataElement::RemoteRepo(d)),
                    None => None,
                },
                JsonKey::LocalRepo => match local_from_json(v) {
                    Some(l) => Some(DataElement::LocalRepo(l)),
                    None => None,
                },
                JsonKey::PatchedRepo => match patched_from_json(v) {
                    Some(p) => Some(DataElement::PatchedRepo(p)),
                    None => None,
                },
                JsonKey::BranchedRepo => match branched_from_json(v) {
                    Some(b) => Some(DataElement::BranchedRepo(b)),
                    None => None,
                },
                JsonKey::PRdRepo => match prd_from_json(v) {
                    Some(p) => Some(DataElement::PRdRepo(p)),
                    None => None,
                },
                _ => None,
            }
        },
        _ => None,
    }
}

/// Any bad record below `i` fails the whole array.
proof fn lemma_dec_elements_fail(items: Seq<Json>, i: int)
    requires
        0 <= i < items.len(),
        dec_element(items[i]) is None,
    ensures
        dec_elements(items) is None,
    decreases items.len(),
{
    if i < items.len() - 1 {
        assert(items.drop_last()[i] == items[i]);
        lemma_dec_elements_fail(items.drop_last(), i);
    }
}

/// Decodes an array of lifecycle records, in order.
pub fn elements_from_json(items: Vec<Json>) -> (r: Option<Vec<DataElement>>)
    ensures
        match r {
            Some(es) => dec_elements(items@) == Some(es@.map_values(|e: DataElement| e@)),
            None => dec_elements(items@) is None,
        },
{
    let ghost items0 = items@;
    let mut rest = items;
    let n = rest.len();
    let mut out: Vec<DataElement> = Vec::new();
    let mut i: usize = 0;
    proof {
        assert(items0.skip(0) =~= items0);
        assert(items0.take(0) =~= Seq::<Json>::empty());
        assert(out@.map_values(|e: DataElement| e@) =~= Seq::<DataElementModel>::empty());
    }
    while i < n
        invariant
            items0 == items@,
            n == items0.len(),
            i <= n,
            rest@ == items0.skip(i as int),
            dec_elements(items0.take(i as int)) == Some(
                out@.map_values(|e: DataElement| e@),
            ),
        decreases items0.len() - i,
    {
        proof {
            assert(items0.skip(i as int)[0] == items0[i as int]);
            assert(items0.skip(i as int).remove(0) =~= items0.skip(i as int + 1));
            assert(items0.take(i as int + 1).drop_last() =~= items0.take(i as int));
            assert(items0.take(i as int + 1).last() == items0[i as int]);
        }
        let v = rest.remove(0);
        let ghost out0 = out@;
        match element_from_json(v) {
            Some(e) => {
                out.push(e);
                proof {
                    assert(out@.map_values(|e: DataElement| e@) =~= out0.map_values(
                        |e: DataElement| e@,
                    ).push(e@));
                }
            },
            None => {
                proof {
                    assert(v == items0[i as int]);
                    assert(dec_element(items0[i as int]) is None);
                    lemma_dec_elements_fail(items0, i as int);
                    assert(dec_elements(items0) is None);
                }
                return None;
            },
        }
        i += 1;
    }
    proof {
        assert(items0.take(items0.len() as int) =~= items0);
    }
    Some(out)
}

/// Decodes the repository-collection object.
pub fn data_from_json(j: Json) -> (r: Option<BaseDataDefn>)
    ensures
        match r {
            Some(d) => dec_data(j) == Some(d@),
            None => dec_data(j) is None,
        },
{
    match j {
        Json::Obj(fields) => {
            let (rj, _u1, _u2) = fields_get3(fields, JsonKey::Repos, JsonKey::Data, JsonKey::Url);
            match rj {
                Some(Json::Arr(items)) => match elements_from_json(items) {
                    Some(repos) => Some(BaseDataDefn { repos }),
                    None => None,
                },
                _ => None,
            }
        },
        _ => None,
    }
}

/// Decodes a whole batch-state document; together with `state_to_json` this
/// closes the checkpoint round trip.
pub fn json_to_state(j: Json) -> (r: Option<BaseStateDefn>)
    ensures
        match r {
            Some(st) => dec_state(j) == Some(st@),
            None => dec_state(j) is None,
        },
{
    match j {
        Json::Obj(fields) => {
            let (dj, tj, sj) = fields_get3(fields, JsonKey::Data, JsonKey::PrTitle,
                JsonKey::PrDescription);
            let dv = match dj {
                Some(v) => v,
                None => {
                    return None;
                },
            };
            let pr_title = match opt_str_of(tj) {
                Some(o) => o,
                None => {
                    return None;
                },
            };
            let pr_description = match opt_str_of(sj) {
                Some(o) => o,
                None => {
                    return None;
                },
            };
            match data_from_json(dv) {
                Some(data) => Some(BaseStateDefn { data, pr_description, pr_title }),
                None => None,
            }
        },
        _ => None,
    }
}

} // verus!
