//! The fixed topic grammar: direct-method invocations, twin responses,
//! desired-property patches, and the outbound request/response topics.
//!
//! Every parser is total: it returns a classification for every input and
//! its result equals a constructive specification-level parse of the topic.

use vstd::prelude::*;

use crate::chars::copy_range;
use crate::chars::dec_digits;
use crate::chars::dec_value;
use crate::chars::digit_run_end;
use crate::chars::find_char;
use crate::chars::find_from;
use crate::chars::format_u64;
use crate::chars::has_prefix;
use crate::chars::lemma_dec_digits;
use crate::chars::lemma_digit_run_end;
use crate::chars::lemma_digit_run_end_unique;
use crate::chars::lemma_find_from;
use crate::chars::lemma_find_from_unique;
use crate::chars::range_matches;
use crate::chars::scan_digits;
use crate::chars::digits_value;

verus! {

/// Inbound direct-method topic prefix.
pub open spec fn dm_prefix() -> Seq<char> {
    "$iothub/methods/POST/"@
}

/// The characters of `dm_prefix`, executable form.
pub fn dm_prefix_vec() -> (v: Vec<char>)
    ensures
        v@ == dm_prefix(),
{
    let mut v: Vec<char> = Vec::new();
    v.push('$');
    v.push('i');
    v.push('o');
    v.push('t');
    v.push('h');
    v.push('u');
    v.push('b');
    v.push('/');
    v.push('m');
    v.push('e');
    v.push('t');
    v.push('h');
    v.push('o');
    v.push('d');
    v.push('s');
    v.push('/');
    v.push('P');
    v.push('O');
    v.push('S');
    v.push('T');
    v.push('/');
    proof {
        reveal_strlit("$iothub/methods/POST/");
        assert(v@ =~= dm_prefix());
    }
    v
}

/// Separator between a path segment and the correlation-id parameter.
pub open spec fn rid_sep() -> Seq<char> {
    "/?$rid="@
}

/// The characters of `rid_sep`, executable form.
pub fn rid_sep_vec() -> (v: Vec<char>)
    ensures
        v@ == rid_sep(),
{
    let mut v: Vec<char> = Vec::new();
    v.push('/');
    v.push('?');
    v.push('$');
    v.push('r');
    v.push('i');
    v.push('d');
    v.push('=');
    proof {
        reveal_strlit("/?$rid=");
        assert(v@ =~= rid_sep());
    }
    v
}

/// Inbound twin response topic prefix.
pub open spec fn twin_res_prefix() -> Seq<char> {
    "$iothub/twin/res/"@
}

/// The characters of `twin_res_prefix`, executable form.
pub fn twin_res_prefix_vec() -> (v: Vec<char>)
    ensures
        v@ == twin_res_prefix(),
{
    let mut v: Vec<char> = Vec::new();
    v.push('$');
    v.push('i');
    v.push('o');
    v.push('t');
    v.push('h');
    v.push('u');
    v.push('b');
    v.push('/');
    v.push('t');
    v.push('w');
    v.push('i');
    v.push('n');
    v.push('/');
    v.push('r');
    v.push('e');
    v.push('s');
    v.push('/');
    proof {
        reveal_strlit("$iothub/twin/res/");
        assert(v@ =~= twin_res_prefix());
    }
    v
}

/// Separator before the version parameter of a twin response topic.
pub open spec fn version_sep() -> Seq<char> {
    "&$version="@
}

/// The characters of `version_sep`, executable form.
pub fn version_sep_vec() -> (v: Vec<char>)
    ensures
        v@ == version_sep(),
{
    let mut v: Vec<char> = Vec::new();
    v.push('&');
    v.push('$');
    v.push('v');
    v.push('e');
    v.push('r');
    v.push('s');
    v.push('i');
    v.push('o');
    v.push('n');
    v.push('=');
    proof {
        reveal_strlit("&$version=");
        assert(v@ =~= version_sep());
    }
    v
}

/// Inbound desired-property patch topic prefix.
pub open spec fn patch_prefix() -> Seq<char> {
    "$iothub/twin/PATCH/properties/desired/?$version="@
}

/// The characters of `patch_prefix`, executable form.
pub fn patch_prefix_vec() -> (v: Vec<char>)
    ensures
        v@ == patch_prefix(),
{
    let mut v: Vec<char> = Vec::new();
    v.push('$');
    v.push('i');
    v.push('o');
    v.push('t');
    v.push('h');
    v.push('u');
    v.push('b');
    v.push('/');
    v.push('t');
    v.push('w');
    v.push('i');
    v.push('n');
    v.push('/');
    v.push('P');
    v.push('A');
    v.push('T');
    v.push('C');
    v.push('H');
    v.push('/');
    v.push('p');
    v.push('r');
    v.push('o');
    v.push('p');
    v.push('e');
    v.push('r');
    v.push('t');
    v.push('i');
    v.push('e');
    v.push('s');
    v.push('/');
    v.push('d');
    v.push('e');
    v.push('s');
    v.push('i');
    v.push('r');
    v.push('e');
    v.push('d');
    v.push('/');
    v.push('?');
    v.push('$');
    v.push('v');
    v.push('e');
    v.push('r');
    v.push('s');
    v.push('i');
    v.push('o');
    v.push('n');
    v.push('=');
    proof {
        reveal_strlit("$iothub/twin/PATCH/properties/desired/?$version=");
        assert(v@ =~= patch_prefix());
    }
    v
}

/// Outbound direct-method response topic prefix.
pub open spec fn dm_res_prefix() -> Seq<char> {
    "$iothub/methods/res/"@
}

/// The characters of `dm_res_prefix`, executable form.
pub fn dm_res_prefix_vec() -> (v: Vec<char>)
    ensures
        v@ == dm_res_prefix(),
{
    let mut v: Vec<char> = Vec::new();
    v.push('$');
    v.push('i');
    v.push('o');
    v.push('t');
    v.push('h');
    v.push('u');
    v.push('b');
    v.push('/');
    v.push('m');
    v.push('e');
    v.push('t');
    v.push('h');
    v.push('o');
    v.push('d');
    v.push('s');
    v.push('/');
    v.push('r');
    v.push('e');
    v.push('s');
    v.push('/');
    proof {
        reveal_strlit("$iothub/methods/res/");
        assert(v@ =~= dm_res_prefix());
    }
    v
}

/// Outbound full-twin request topic prefix.
pub open spec fn twin_get_prefix() -> Seq<char> {
    "$iothub/twin/GET/?$rid="@
}

/// The characters of `twin_get_prefix`, executable form.
pub fn twin_get_prefix_vec() -> (v: Vec<char>)
    ensures
        v@ == twin_get_prefix(),
{
    let mut v: Vec<char> = Vec::new();
    v.push('$');
    v.push('i');
    v.push('o');
    v.push('t');
    v.push('h');
    v.push('u');
    v.push('b');
    v.push('/');
    v.push('t');
    v.push('w');
    v.push('i');
    v.push('n');
    v.push('/');
    v.push('G');
    v.push('E');
    v.push('T');
    v.push('/');
    v.push('?');
    v.push('$');
    v.push('r');
    v.push('i');
    v.push('d');
    v.push('=');
    proof {
        reveal_strlit("$iothub/twin/GET/?$rid=");
        assert(v@ =~= twin_get_prefix());
    }
    v
}

/// Outbound reported-property patch topic prefix.
pub open spec fn report_prefix() -> Seq<char> {
    "$iothub/twin/PATCH/properties/reported/?$rid="@
}

/// The characters of `report_prefix`, executable form.
pub fn report_prefix_vec() -> (v: Vec<char>)
    ensures
        v@ == report_prefix(),
{
    let mut v: Vec<char> = Vec::new();
    v.push('$');
    v.push('i');
    v.push('o');
    v.push('t');
    v.push('h');
    v.push('u');
    v.push('b');
    v.push('/');
    v.push('t');
    v.push('w');
    v.push('i');
    v.push('n');
    v.push('/');
    v.push('P');
    v.push('A');
    v.push('T');
    v.push('C');
    v.push('H');
    v.push('/');
    v.push('p');
    v.push('r');
    v.push('o');
    v.push('p');
    v.push('e');
    v.push('r');
    v.push('t');
    v.push('i');
    v.push('e');
    v.push('s');
    v.push('/');
    v.push('r');
    v.push('e');
    v.push('p');
    v.push('o');
    v.push('r');
    v.push('t');
    v.push('e');
    v.push('d');
    v.push('/');
    v.push('?');
    v.push('$');
    v.push('r');
    v.push('i');
    v.push('d');
    v.push('=');
    proof {
        reveal_strlit("$iothub/twin/PATCH/properties/reported/?$rid=");
        assert(v@ =~= report_prefix());
    }
    v
}
/// A canonical unsigned decimal number read from `s[i..j]`: at least one
/// digit, no redundant leading zero, and a value that fits in 64 bits.
pub open spec fn parse_canon_u64(s: Seq<char>, i: int, j: int) -> Option<u64> {
    if i < j && (j == i + 1 || s[i] != '0') && dec_value(s.subrange(i, j)) <= u64::MAX {
        Some(dec_value(s.subrange(i, j)) as u64)
    } else {
        None
    }
}

/// The method name and correlation id of a direct-method invocation topic,
/// or `None` when the topic does not follow that convention.
pub open spec fn parse_dm_spec(t: Seq<char>) -> Option<(Seq<char>, Seq<char>)> {
    let pl = dm_prefix().len() as int;
    if t.len() >= pl && t.subrange(0, pl) == dm_prefix() {
        match find_from(t, pl, '/') {
            Some(j) => {
                let sl = rid_sep().len() as int;
                if j > pl && j + sl < t.len() && t.subrange(j, j + sl) == rid_sep() {
                    Some((t.subrange(pl, j), t.subrange(j + sl, t.len() as int)))
                } else {
                    None
                }
            },
            None => None,
        }
    } else {
        None
    }
}

/// The status, correlation id and optional version of a twin response topic.
pub open spec fn parse_twin_res_spec(t: Seq<char>) -> Option<(u64, Seq<char>, Option<u64>)> {
    let pl = twin_res_prefix().len() as int;
    if t.len() >= pl && t.subrange(0, pl) == twin_res_prefix() {
        let j = digit_run_end(t, pl);
        match parse_canon_u64(t, pl, j) {
            None => None,
            Some(status) => {
                let sl = rid_sep().len() as int;
                if j + sl <= t.len() && t.subrange(j, j + sl) == rid_sep() {
                    let rs = j + sl;
                    match find_from(t, rs, '&') {
                        None => if t.len() > rs {
                            Some((status, t.subrange(rs, t.len() as int), None::<u64>))
                        } else {
                            None
                        },
                        Some(a) => {
                            let vl = version_sep().len() as int;
                            if a > rs && a + vl <= t.len() && t.subrange(a, a + vl)
                                == version_sep() {
                                let vs = a + vl;
                                let ve = digit_run_end(t, vs);
                                if ve == t.len() {
                                    match parse_canon_u64(t, vs, ve) {
                                        Some(v) => Some((status, t.subrange(rs, a), Some(v))),
                                        None => None,
                                    }
                                } else {
                                    None
                                }
                            } else {
                                None
                            }
                        },
                    }
                } else {
                    None
                }
            },
        }
    } else {
        None
    }
}

/// The version of a desired-property patch topic.
pub open spec fn parse_patch_spec(t: Seq<char>) -> Option<u64> {
    let pl = patch_prefix().len() as int;
    if t.len() >= pl && t.subrange(0, pl) == patch_prefix() {
        let ve = digit_run_end(t, pl);
        if ve == t.len() {
            parse_canon_u64(t, pl, ve)
        } else {
            None
        }
    } else {
        None
    }
}

/// The outbound topic that requests the full twin document.
pub open spec fn twin_get_topic_spec(rid: u8) -> Seq<char> {
    twin_get_prefix() + dec_digits(rid as nat)
}

/// The outbound topic that publishes a reported-property patch.
pub open spec fn report_topic_spec(rid: u8) -> Seq<char> {
    report_prefix() + dec_digits(rid as nat)
}

/// The outbound topic of a direct-method response.
pub open spec fn method_res_topic_spec(status: u64, rid: Seq<char>) -> Seq<char> {
    dm_res_prefix() + dec_digits(status as nat) + rid_sep() + rid
}

/// Parses a direct-method invocation topic into method name and
/// correlation id.
pub fn parse_direct_method(t: &Vec<char>) -> (r: Option<(Vec<char>, Vec<char>)>)
    ensures
        match r {
            Some(p) => parse_dm_spec(t@) == Some((p.0@, p.1@)),
            None => parse_dm_spec(t@) is None,
        },
{
    let p = dm_prefix_vec();
    if !has_prefix(t, &p) {
        return None;
    }
    let pl = p.len();
    match find_char(t, pl, '/') {
        None => None,
        Some(j) => {
            proof {
                lemma_find_from(t@, pl as int, '/');
            }
            if j == pl {
                return None;
            }
            let sep = rid_sep_vec();
            if !range_matches(t, j, &sep) {
                return None;
            }
            if t.len() - j == sep.len() {
                return None;
            }
            let name = copy_range(t, pl, j);
            let rid = copy_range(t, j + sep.len(), t.len());
            Some((name, rid))
        },
    }
}

/// A direct-method invocation topic decomposes into the fixed prefix, a
/// non-empty method name free of path separators, the correlation-id
/// separator, and a non-empty correlation id.
pub proof fn lemma_dm_parts(t: Seq<char>)
    requires
        parse_dm_spec(t) is Some,
    ensures
        match parse_dm_spec(t) {
            Some(p) => {
                &&& t =~= dm_prefix() + p.0 + rid_sep() + p.1
                &&& p.0.len() > 0
                &&& p.1.len() > 0
                &&& forall|i: int| 0 <= i < p.0.len() ==> p.0[i] != '/'
            },
            None => false,
        },
{
    let pl = dm_prefix().len() as int;
    let j = find_from(t, pl, '/')->Some_0;
    lemma_find_from(t, pl, '/');
    let sl = rid_sep().len() as int;
    assert(t =~= dm_prefix() + t.subrange(pl, j) + rid_sep() + t.subrange(j + sl, t.len() as int));
}

/// Conversely, every topic assembled from the direct-method convention is
/// recognized, and as exactly its own parts: with soundness this pins the
/// classifier to the wire convention.
pub proof fn lemma_dm_parts_complete(name: Seq<char>, rid: Seq<char>)
    requires
        name.len() > 0,
        rid.len() > 0,
        forall|i: int| 0 <= i < name.len() ==> name[i] != '/',
    ensures
        parse_dm_spec(dm_prefix() + name + rid_sep() + rid) == Some((name, rid)),
{
    reveal_strlit("$iothub/methods/POST/");
    reveal_strlit("/?$rid=");
    let t = dm_prefix() + name + rid_sep() + rid;
    let pl = dm_prefix().len() as int;
    let j = pl + name.len() as int;
    let sl = rid_sep().len() as int;
    assert(t.subrange(0, pl) =~= dm_prefix());
    assert(t[j] == rid_sep()[0]);
    assert(forall|k: int| pl <= k < j ==> t[k] == name[k - pl]);
    lemma_find_from_unique(t, pl, '/', j);
    assert(t.subrange(j, j + sl) =~= rid_sep());
    assert(t.subrange(pl, j) =~= name);
    assert(t.subrange(j + sl, t.len() as int) =~= rid);
}

/// Parses a twin response topic into status, correlation id and version.
pub fn parse_twin_res(t: &Vec<char>) -> (r: Option<(u64, Vec<char>, Option<u64>)>)
    ensures
        match r {
            Some(p) => parse_twin_res_spec(t@) == Some((p.0, p.1@, p.2)),
            None => parse_twin_res_spec(t@) is None,
        },
{
    let pre = twin_res_prefix_vec();
    if !has_prefix(t, &pre) {
        return None;
    }
    let pl = pre.len();
    let j = scan_digits(t, pl);
    proof {
        lemma_digit_run_end(t@, pl as int);
    }
    if j == pl {
        return None;
    }
    if t[pl] == '0' && j > pl + 1 {
        return None;
    }
    let status = match digits_value(t, pl, j) {
        Some(v) => v,
        None => {
            return None;
        },
    };
    let sep = rid_sep_vec();
    if !range_matches(t, j, &sep) {
        return None;
    }
    let tl = t.len();
    proof {
        assert(j + sep@.len() <= t@.len());
    }
    let rs = j + sep.len();
    match find_char(t, rs, '&') {
        None => {
            if t.len() == rs {
                return None;
            }
            let rid = copy_range(t, rs, t.len());
            Some((status, rid, None))
        },
        Some(a) => {
            proof {
                lemma_find_from(t@, rs as int, '&');
            }
            if a == rs {
                return None;
            }
            let vsep = version_sep_vec();
            if !range_matches(t, a, &vsep) {
                return None;
            }
            proof {
                assert(tl == t@.len());
                assert(a + vsep@.len() <= t@.len());
            }
            let vs = a + vsep.len();
            let ve = scan_digits(t, vs);
            proof {
                lemma_digit_run_end(t@, vs as int);
            }
            if ve != t.len() {
                return None;
            }
            if ve == vs {
                return None;
            }
            if t[vs] == '0' && ve > vs + 1 {
                return None;
            }
            let ver = match digits_value(t, vs, ve) {
                Some(v) => v,
                None => {
                    return None;
                },
            };
            let rid = copy_range(t, rs, a);
            Some((status, rid, Some(ver)))
        },
    }
}

/// Conversely, every topic assembled from the twin response convention is
/// recognized, and as exactly its own status, correlation id and version.
/// In particular a reply that echoes the canonical rendering of an issued
/// correlation id is matched.
pub proof fn lemma_twin_res_parts_complete(status: u64, rid: Seq<char>, version: Option<u64>)
    requires
        rid.len() > 0,
        forall|i: int| 0 <= i < rid.len() ==> rid[i] != '&',
    ensures
        match version {
            None => parse_twin_res_spec(
                twin_res_prefix() + dec_digits(status as nat) + rid_sep() + rid,
            ) == Some((status, rid, None::<u64>)),
            Some(v) => parse_twin_res_spec(
                twin_res_prefix() + dec_digits(status as nat) + rid_sep() + rid + version_sep()
                    + dec_digits(v as nat),
            ) == Some((status, rid, Some(v))),
        },
{
    reveal_strlit("$iothub/twin/res/");
    reveal_strlit("/?$rid=");
    reveal_strlit("&$version=");
    let digits = dec_digits(status as nat);
    lemma_dec_digits(status as nat);
    let pl = twin_res_prefix().len() as int;
    let j = pl + digits.len() as int;
    let rs = j + rid_sep().len() as int;
    match version {
        None => {
            let t = twin_res_prefix() + digits + rid_sep() + rid;
            assert(t.subrange(0, pl) =~= twin_res_prefix());
            assert(forall|k: int| pl <= k < j ==> t[k] == digits[k - pl]);
            assert(t[j] == rid_sep()[0]);
            lemma_digit_run_end_unique(t, pl, j);
            assert(t.subrange(pl, j) =~= digits);
            assert(t.subrange(j, rs) =~= rid_sep());
            match find_from(t, rs, '&') {
                Some(a) => {
                    lemma_find_from(t, rs, '&');
                    assert(t[a] == rid[a - rs]);
                    assert(false);
                },
                None => {},
            }
            assert(t.subrange(rs, t.len() as int) =~= rid);
        },
        Some(v) => {
            let vdigits = dec_digits(v as nat);
            lemma_dec_digits(v as nat);
            let t = twin_res_prefix() + digits + rid_sep() + rid + version_sep() + vdigits;
            let a = rs + rid.len() as int;
            let vs = a + version_sep().len() as int;
            assert(t.subrange(0, pl) =~= twin_res_prefix());
            assert(forall|k: int| pl <= k < j ==> t[k] == digits[k - pl]);
            assert(t[j] == rid_sep()[0]);
            lemma_digit_run_end_unique(t, pl, j);
            assert(t.subrange(pl, j) =~= digits);
            assert(t.subrange(j, rs) =~= rid_sep());
            assert(t[a] == version_sep()[0]);
            assert(forall|k: int| rs <= k < a ==> t[k] == rid[k - rs]);
            lemma_find_from_unique(t, rs, '&', a);
            assert(t.subrange(a, vs) =~= version_sep());
            assert(forall|k: int| vs <= k < t.len() ==> t[k] == vdigits[k - vs]);
            lemma_digit_run_end_unique(t, vs, t.len() as int);
            assert(t.subrange(vs, t.len() as int) =~= vdigits);
            assert(t.subrange(rs, a) =~= rid);
        },
    }
}

/// Conversely, every topic assembled from the patch convention is
/// recognized, and as exactly its own version.
pub proof fn lemma_patch_parts_complete(version: u64)
    ensures
        parse_patch_spec(patch_prefix() + dec_digits(version as nat)) == Some(version),
{
    reveal_strlit("$iothub/twin/PATCH/properties/desired/?$version=");
    let digits = dec_digits(version as nat);
    lemma_dec_digits(version as nat);
    let t = patch_prefix() + digits;
    let pl = patch_prefix().len() as int;
    assert(t.subrange(0, pl) =~= patch_prefix());
    assert(forall|k: int| pl <= k < t.len() ==> t[k] == digits[k - pl]);
    lemma_digit_run_end_unique(t, pl, t.len() as int);
    assert(t.subrange(pl, t.len() as int) =~= digits);
}

/// Parses a desired-property patch topic into its version.
pub fn parse_patch(t: &Vec<char>) -> (r: Option<u64>)
    ensures
        r == parse_patch_spec(t@),
{
    let pre = patch_prefix_vec();
    if !has_prefix(t, &pre) {
        return None;
    }
    let pl = pre.len();
    let ve = scan_digits(t, pl);
    proof {
        lemma_digit_run_end(t@, pl as int);
    }
    if ve != t.len() {
        return None;
    }
    if ve == pl {
        return None;
    }
    if t[pl] == '0' && ve > pl + 1 {
        return None;
    }
    match digits_value(t, pl, ve) {
        Some(v) => Some(v),
        None => None,
    }
}

/// Builds the outbound topic that requests the full twin document.
pub fn build_twin_get_topic(rid: u8) -> (r: Vec<char>)
    ensures
        r@ == twin_get_topic_spec(rid),
{
    let mut v = twin_get_prefix_vec();
    let mut d = format_u64(rid as u64);
    v.append(&mut d);
    proof {
        assert(rid as u64 as nat == rid as nat);
    }
    v
}

/// Builds the outbound topic that publishes a reported-property patch.
pub fn build_report_topic(rid: u8) -> (r: Vec<char>)
    ensures
        r@ == report_topic_spec(rid),
{
    let mut v = report_prefix_vec();
    let mut d = format_u64(rid as u64);
    v.append(&mut d);
    proof {
        assert(rid as u64 as nat == rid as nat);
    }
    v
}

/// Builds the outbound topic of a direct-method response.
pub fn build_method_res_topic(status: u64, rid: &Vec<char>) -> (r: Vec<char>)
    ensures
        r@ == method_res_topic_spec(status, rid@),
{
    let mut v = dm_res_prefix_vec();
    let mut d = format_u64(status);
    v.append(&mut d);
    let mut s = rid_sep_vec();
    v.append(&mut s);
    let mut rc = copy_range(rid, 0, rid.len());
    proof {
        assert(rc@ =~= rid@);
    }
    v.append(&mut rc);
    v
}

} // verus!
