//! Workspace identifiers and resolution.

use crate::error::{ErrorView, NutError};
use crate::text::{join_path, owned, path_join};
use vstd::arithmetic::div_mod::{lemma_mod_breakdown, lemma_small_mod};
use vstd::arithmetic::power::{lemma_pow_positive, pow};
use vstd::prelude::*;
use vstd::string::*;

verus! {

#[verifier::external_type_specification]
#[verifier::external_body]
pub struct ExDecodeError(ulid::DecodeError);

/// The value of an upper-case Crockford base-32 digit (code point `x`):
/// `0`-`9`, then the letters without I, L, O and U.
pub open spec fn upper_digit_value(x: int) -> Option<nat> {
    if 48 <= x <= 57 {
        Some((x - 48) as nat)
    } else if 65 <= x <= 72 {
        Some((x - 55) as nat)
    } else if x == 74 || x == 75 {
        Some((x - 56) as nat)
    } else if x == 77 || x == 78 {
        Some((x - 57) as nat)
    } else if 80 <= x <= 84 {
        Some((x - 58) as nat)
    } else if 86 <= x <= 90 {
        Some((x - 59) as nat)
    } else {
        None
    }
}

/// The value of a ULID digit, in either case.
pub open spec fn digit_value(c: char) -> Option<nat> {
    if 97 <= (c as int) <= 122 {
        upper_digit_value(c as int - 32)
    } else {
        upper_digit_value(c as int)
    }
}

/// The number the digits of `s` spell in base 32, if all are digits.
pub open spec fn base32_value(s: Seq<char>) -> Option<nat>
    decreases s.len(),
{
    if s.len() == 0 {
        Some(0)
    } else {
        match (base32_value(s.drop_last()), digit_value(s.last())) {
            (Some(p), Some(d)) => Some(p * 32 + d),
            _ => None,
        }
    }
}

/// The 128-bit value a ULID text encodes: 26 digits, read in base 32,
/// modulo 2^128 (bits above 128 are dropped).
pub open spec fn ulid_decoded(s: Seq<char>) -> Option<u128> {
    if s.len() != 26 {
        None
    } else {
        match base32_value(s) {
            Some(v) => Some((v % (u128::MAX as nat + 1)) as u128),
            None => None,
        }
    }
}

/// The upper-case digit of value `d < 32`.
pub open spec fn symbol(d: nat) -> char {
    let x: int = if d < 10 {
        48 + d as int
    } else if d < 18 {
        55 + d as int
    } else if d < 20 {
        56 + d as int
    } else if d < 22 {
        57 + d as int
    } else if d < 27 {
        58 + d as int
    } else {
        59 + d as int
    };
    x as char
}

/// The last `n` base-32 digits of `v`, most significant first.
pub open spec fn base32_digits(v: nat, n: nat) -> Seq<char>
    decreases n,
{
    if n == 0 {
        Seq::empty()
    } else {
        base32_digits(v / 32, (n - 1) as nat).push(symbol(v % 32))
    }
}

/// The canonical ULID text of a 128-bit value: its 26 base-32 digits.
pub open spec fn ulid_text(v: u128) -> Seq<char> {
    base32_digits(v as nat, 26)
}

/// Relies on `ulid::Ulid::from_string`: the encoded value, or a decoding error
/// when the text is no ULID.
#[verifier::external_body]
fn decode_ulid(s: &str) -> (r: Result<u128, ulid::DecodeError>)
    ensures
        r matches Ok(v) ==> ulid_decoded(s@) == Some(v),
        r is Err ==> ulid_decoded(s@) is None,
{
    ulid::Ulid::from_string(s).map(u128::from)
}

/// Relies on `ulid::DecodeError`'s `Display`: the message of a decoding error.
#[verifier::external_body]
fn decode_error_message(e: &ulid::DecodeError) -> String {
    e.to_string()
}

/// Relies on `ulid::Ulid::to_string`: the 26 upper-case base-32 digits.
#[verifier::external_body]
fn encode_ulid(v: u128) -> (r: String)
    ensures
        r@ == ulid_text(v),
{
    ulid::Ulid::from(v).to_string()
}

proof fn lemma_symbol_value(d: nat)
    requires
        d < 32,
    ensures
        digit_value(symbol(d)) == Some(d),
{
}

proof fn lemma_digits_value(v: nat, n: nat)
    ensures
        base32_digits(v, n).len() == n,
        base32_value(base32_digits(v, n)) == Some(((v as int) % pow(32, n)) as nat),
    decreases n,
{
    reveal(pow);
    if n == 0 {
        assert(v % 1 == 0);
    } else {
        let m = (n - 1) as nat;
        lemma_digits_value(v / 32, m);
        let s = base32_digits(v, n);
        assert(s.drop_last() =~= base32_digits(v / 32, m));
        lemma_symbol_value(v % 32);
        lemma_pow_positive(32, m);
        lemma_mod_breakdown(v as int, 32, pow(32, m));
        assert(pow(32, n) == 32 * pow(32, m));
    }
}

/// Reading back the text of a value gives the value.
pub proof fn lemma_ulid_round_trip(v: u128)
    ensures
        ulid_decoded(ulid_text(v)) == Some(v),
{
    lemma_digits_value(v as nat, 26);
    assert(pow(32, 26) == 4 * (u128::MAX as int + 1)) by {
        reveal_with_fuel(pow, 27);
    }
    lemma_small_mod(v as nat, pow(32, 26) as nat);
    lemma_small_mod(v as nat, u128::MAX as nat + 1);
}

/// A workspace identifier: a ULID, time-ordered by its top 48 bits.
#[derive(Debug, Clone, Copy, PartialEq, Eq, Structural)]
pub struct WorkspaceId {
    pub value: u128,
}

/// The creation time of a workspace id, in milliseconds since the epoch.
pub open spec fn timestamp_of(v: u128) -> u64 {
    (v >> 80u128) as u64
}

impl WorkspaceId {
    /// The canonical text, used as the workspace's directory name.
    pub fn to_text(&self) -> (r: String)
        ensures
            r@ == ulid_text(self.value),
    {
        encode_ulid(self.value)
    }

    /// The creation time, in milliseconds since the epoch.
    pub fn timestamp_ms(&self) -> (r: u64)
        ensures
            r == timestamp_of(self.value),
    {
        (self.value >> 80u128) as u64
    }
}

/// Reads a workspace id from its text.
pub fn parse_workspace_id(id: &str) -> (r: Result<WorkspaceId, NutError>)
    ensures
        ulid_decoded(id@) matches Some(v) ==> (r matches Ok(w) && w.value == v),
        ulid_decoded(id@) is None ==> (r matches Err(e) && e@ is InvalidWorkspaceId && e@->InvalidWorkspaceId_id == id@),
{
    match decode_ulid(id) {
        Ok(v) => Ok(WorkspaceId { value: v }),
        Err(e) => Err(NutError::InvalidWorkspaceId { id: owned(id), message: decode_error_message(&e) }),
    }
}

/// The workspace the user is in, given where the working directory lies
/// below the data directory (`inside`, empty when it is not below it): the
/// first component there must be a workspace id.
pub fn entered_workspace(inside: &Vec<String>, working_directory: &str, data_directory: &str) -> (r: Result<WorkspaceId, NutError>)
    ensures
        inside@.len() > 0 && ulid_decoded(inside@[0]@) is Some ==> (r matches Ok(w) && Some(w.value) == ulid_decoded(inside@[0]@)),
        !(inside@.len() > 0 && ulid_decoded(inside@[0]@) is Some) ==> (r matches Err(e) && e@ == (ErrorView::NotInWorkspace {
            working_directory: working_directory@,
            data_directory: data_directory@,
        })),
{
    if inside.len() > 0 {
        if let Ok(v) = decode_ulid(inside[0].as_str()) {
            return Ok(WorkspaceId { value: v });
        }
    }
    Err(NutError::NotInWorkspace { working_directory: owned(working_directory), data_directory: owned(data_directory) })
}

/// A workspace: its id and its directory.
#[derive(Debug, Clone)]
pub struct Workspace {
    pub id: WorkspaceId,
    pub path: String,
}

impl Workspace {
    /// The workspace named by `workspace_arg`, else the one entered
    /// (`entered`), with its directory under `data_dir`.
    pub fn resolve(workspace_arg: &Option<String>, entered: Result<WorkspaceId, NutError>, data_dir: &str) -> (r: Result<Workspace, NutError>)
        ensures
            workspace_arg is Some && ulid_decoded(workspace_arg->0@) is Some ==> (r matches Ok(w) && Some(w.id.value)
                == ulid_decoded(workspace_arg->0@) && w.path@ == join_path(data_dir@, ulid_text(w.id.value))),
            workspace_arg is Some && ulid_decoded(workspace_arg->0@) is None ==> (r matches Err(e) && e@ is InvalidWorkspaceId
                && e@->InvalidWorkspaceId_id == workspace_arg->0@),
            workspace_arg is None && entered is Ok ==> (r matches Ok(w) && w.id == entered->Ok_0 && w.path@ == join_path(data_dir@, ulid_text(w.id.value))),
            workspace_arg is None && entered is Err ==> (r matches Err(e) && e@ == entered->Err_0@),
    {
        let id = match workspace_arg {
            Some(a) => parse_workspace_id(a.as_str())?,
            None => entered?,
        };
        let path = path_join(data_dir, id.to_text().as_str());
        Ok(Workspace { id, path })
    }
}

} // verus!

verus! {

/// A `PATH` value with `dir` searched first: `<dir>:<path>`.
pub fn search_path_with(dir: &str, path: &str) -> (r: String)
    ensures
        r@ == dir@ + ":"@ + path@,
{
    let mut s = owned(dir);
    s.append(":");
    s.append(path);
    s
}

} // verus!

verus! {

/// `order` lists indices of `ids` newest first: a permutation of all
/// indices, by non-increasing creation time, equal times in index order.
pub open spec fn is_newest_first(ids: Seq<WorkspaceId>, order: Seq<usize>) -> bool {
    &&& order.len() == ids.len()
    &&& forall|i: int| 0 <= i < order.len() ==> (#[trigger] order[i]) < ids.len()
    &&& forall|i: int, j: int| 0 <= i < j < order.len() ==> #[trigger] order[i] != #[trigger] order[j]
    &&& forall|i: int, j: int| 0 <= i < j < order.len() ==> timestamp_of(ids[#[trigger] order[i] as int].value)
        >= timestamp_of(ids[#[trigger] order[j] as int].value)
    &&& forall|i: int, j: int| 0 <= i < j < order.len() && timestamp_of(ids[#[trigger] order[i] as int].value)
        == timestamp_of(ids[#[trigger] order[j] as int].value) ==> order[i] < order[j]
}

/// The order in which to list workspaces: newest first, equal creation
/// times in the given order.
pub fn newest_first(ids: &Vec<WorkspaceId>) -> (r: Vec<usize>)
    ensures
        is_newest_first(ids@, r@),
{
    let mut order: Vec<usize> = Vec::new();
    let mut k: usize = 0;
    while k < ids.len()
        invariant
            k <= ids@.len(),
            is_newest_first(ids@.take(k as int), order@),
        decreases ids@.len() - k,
    {
        let ghost ids_k = ids@.take(k as int);
        let ghost ids_k1 = ids@.take(k as int + 1);
        let t = ids[k].timestamp_ms();
        let mut p: usize = 0;
        while p < order.len() && ids[order[p]].timestamp_ms() >= t
            invariant
                p <= order@.len(),
                order@.len() == k,
                k < ids@.len(),
                t == timestamp_of(ids@[k as int].value),
                is_newest_first(ids_k, order@),
                ids_k == ids@.take(k as int),
                forall|a: int| 0 <= a < p ==> timestamp_of(ids@[#[trigger] order@[a] as int].value) >= t,
            decreases order@.len() - p,
        {
            proof {
                assert(order@[p as int] < k);
                assert(ids_k[order@[p as int] as int] == ids@[order@[p as int] as int]);
            }
            p = p + 1;
        }
        let ghost old_order = order@;
        proof {
            assert forall|a: int| 0 <= a < old_order.len() implies (#[trigger] old_order[a]) < k
                && ids_k[old_order[a] as int] == ids@[old_order[a] as int] by {
                assert(old_order[a] < ids_k.len());
            }
        }
        order.insert(p, k);
        proof {
            let o = order@;
            assert(o == old_order.insert(p as int, k));
            assert forall|i: int| 0 <= i < o.len() implies (#[trigger] o[i]) < ids_k1.len() by {
                if i < p {
                    assert(o[i] == old_order[i]);
                } else if i > p {
                    assert(o[i] == old_order[i - 1]);
                }
            }
            assert forall|i: int| 0 <= i < o.len() implies ids_k1[#[trigger] o[i] as int] == ids@[o[i] as int] by {
                if i < p {
                    assert(o[i] == old_order[i]);
                } else if i > p {
                    assert(o[i] == old_order[i - 1]);
                }
            }
            assert forall|i: int, j: int| 0 <= i < j < o.len() implies #[trigger] o[i] != #[trigger] o[j] && timestamp_of(
                ids_k1[o[i] as int].value,
            ) >= timestamp_of(ids_k1[o[j] as int].value) && (timestamp_of(ids_k1[o[i] as int].value) == timestamp_of(
                ids_k1[o[j] as int].value,
            ) ==> o[i] < o[j]) by {
                assert(ids_k1[o[i] as int] == ids@[o[i] as int]);
                assert(ids_k1[o[j] as int] == ids@[o[j] as int]);
                if j < p {
                    assert(o[i] == old_order[i] && o[j] == old_order[j]);
                } else if i < p && j == p {
                    assert(o[i] == old_order[i]);
                } else if i < p && j > p {
                    assert(o[i] == old_order[i] && o[j] == old_order[j - 1]);
                } else if i == p {
                    assert(o[j] == old_order[j - 1]);
                    assert(old_order[p as int] < k);
                    assert(timestamp_of(ids@[old_order[p as int] as int].value) < t);
                    if j - 1 > p {
                        assert(timestamp_of(ids_k[old_order[p as int] as int].value) >= timestamp_of(
                            ids_k[old_order[j - 1] as int].value,
                        ));
                    }
                } else {
                    assert(o[i] == old_order[i - 1] && o[j] == old_order[j - 1]);
                }
            }
            assert(is_newest_first(ids_k1, o));
        }
        k = k + 1;
    }
    assert(ids@.take(ids@.len() as int) =~= ids@);
    order
}

} // verus!
