//! The persisted configuration document: the application identity and, once
//! authorization has succeeded, the long-lived app token.
//!
//! The store itself is a file owned by the caller; the library only renders
//! and reads the document, so that what `format_config` writes, `parse_config`
//! reads back unchanged — see `lemma_config_round_trip`.

use vstd::prelude::*;
use vstd::string::StringExecFns;
use crate::json::{
    doc_str, escape, lookup_val, parse_doc, GPrim, GVal, Prim, Val, doc_str_field, find_val,
    parse_doc_str,
};
use crate::strutil::string_from_chars;

verus! {

/// The persisted application identity and token.
#[derive(Clone, Debug)]
pub struct Configuration {
    pub app_id: String,
    pub app_token: Option<String>,
}

/// View of an optional string.
pub open spec fn opt_view(o: Option<String>) -> Option<Seq<char>> {
    match o {
        Some(s) => Some(s@),
        None => None,
    }
}

/// The configuration document as written: the identifier, and the token
/// when there is one.
pub open spec fn config_doc_of(id: Seq<char>, tok: Option<Seq<char>>) -> Seq<char> {
    match tok {
        Some(t) => "{\"app_id\":\""@ + escape(id) + "\",\"app_token\":\""@ + escape(t) + "\"}"@,
        None => "{\"app_id\":\""@ + escape(id) + "\"}"@,
    }
}

/// Renders the configuration document.
pub fn format_config(c: &Configuration) -> (r: String)
    ensures
        r@ == config_doc_of(c.app_id@, opt_view(c.app_token)),
{
    let id = crate::json::escaped_chars(c.app_id.as_str());
    let id_str = string_from_chars(&id);
    let mut out = String::from_str("{\"app_id\":\"");
    out.append(id_str.as_str());
    match &c.app_token {
        Some(t) => {
            out.append("\",\"app_token\":\"");
            let tk = crate::json::escaped_chars(t.as_str());
            let tk_str = string_from_chars(&tk);
            out.append(tk_str.as_str());
            out.append("\"}");
        },
        None => {
            out.append("\"}");
        },
    }
    out
}

/// What a configuration document holds: an `app_id` string, and an
/// `app_token` that is a string, absent, or written `null`.
pub open spec fn config_of(s: Seq<char>) -> Option<(Seq<char>, Option<Seq<char>>)> {
    match parse_doc(s) {
        Some(pairs) => match doc_str(pairs, "app_id"@) {
            Some(id) => match lookup_val(pairs, "app_token"@) {
                Some(v) => match v {
                    GVal::Prim(GPrim::Str(t)) => Some((id, Some(t))),
                    GVal::Prim(GPrim::Null) => Some((id, None)),
                    _ => None,
                },
                None => Some((id, None)),
            },
            None => None,
        },
        None => None,
    }
}

/// Reads a configuration document.
pub fn parse_config(s: &str) -> (r: Option<Configuration>)
    ensures
        match r {
            Some(c) => config_of(s@) == Some((c.app_id@, opt_view(c.app_token))),
            None => config_of(s@) is None,
        },
{
    let pairs = match parse_doc_str(s) {
        Some(p) => p,
        None => {
            return None;
        },
    };
    let id = match doc_str_field(&pairs, "app_id") {
        Some(t) => t,
        None => {
            return None;
        },
    };
    match find_val(&pairs, "app_token") {
        Some(k) => match &pairs[k].1 {
            Val::Prim(Prim::Str(t)) => Some(
                Configuration { app_id: id, app_token: Some(t.clone()) },
            ),
            Val::Prim(Prim::Null) => Some(Configuration { app_id: id, app_token: None }),
            _ => None,
        },
        None => Some(Configuration { app_id: id, app_token: None }),
    }
}

/// What loading the store yields: the configuration when the file was there
/// and readable, and nothing otherwise. A missing file, an unreadable
/// document and a document of the wrong shape all fall back to "nothing",
/// so the caller goes through device authorization again.
pub fn load_config(contents: Option<&str>) -> (r: Option<Configuration>)
    ensures
        match contents {
            None => r is None,
            Some(s) => match r {
                Some(c) => config_of(s@) == Some((c.app_id@, opt_view(c.app_token))),
                None => config_of(s@) is None,
            },
        },
{
    match contents {
        Some(s) => parse_config(s),
        None => None,
    }
}

/// The token held by the store, if there is one: the contents must be
/// present, readable, and carry a token.
pub fn stored_token(contents: Option<&str>) -> (r: Option<String>)
    ensures
        match r {
            Some(t) => contents matches Some(s) && config_of(s@) matches Some(p) && p.1 == Some(
                t@,
            ),
            None => match contents {
                None => true,
                Some(s) => config_of(s@) is None || (config_of(s@) matches Some(p)
                    && p.1 is None),
            },
        },
{
    match load_config(contents) {
        Some(c) => c.app_token,
        None => None,
    }
}


/// Keys of the configuration document contain nothing that escaping
/// changes.
proof fn lemma_config_keys_plain()
    ensures
        escape("app_id"@) == "app_id"@,
        escape("app_token"@) == "app_token"@,
{
    reveal_strlit("app_id");
    reveal_strlit("app_token");
    let k1 = "app_id"@;
    let k2 = "app_token"@;
    assert forall|j: int| 0 <= j < k1.len() implies k1[j] != '"' && k1[j] != '\\' by {
        assert(j == 0 || j == 1 || j == 2 || j == 3 || j == 4 || j == 5);
    }
    crate::json::lemma_escape_plain(k1);
    assert forall|j: int| 0 <= j < k2.len() implies k2[j] != '"' && k2[j] != '\\' by {
        assert(j == 0 || j == 1 || j == 2 || j == 3 || j == 4 || j == 5 || j == 6 || j == 7 || j
            == 8);
    }
    crate::json::lemma_escape_plain(k2);
}

/// Round trip of a document that carries a token.
#[verifier::rlimit(80)]
proof fn lemma_round_trip_some(id: Seq<char>, t: Seq<char>)
    ensures
        config_of(config_doc_of(id, Some(t))) == Some((id, Some(t))),
{
    reveal_strlit("{\"app_id\":\"");
    reveal_strlit("\",\"app_token\":\"");
    reveal_strlit("\"}");
    reveal_strlit("app_id");
    reveal_strlit("app_token");
    lemma_config_keys_plain();
    let l1 = "{\"app_id\":\""@;
    let l2 = "\",\"app_token\":\""@;
    let l3 = "\"}"@;
    let k1 = "app_id"@;
    let k2 = "app_token"@;
    assert(l1 =~= seq!['{', '"'] + k1 + seq!['"', ':', '"']);
    assert(l2 =~= seq!['"', ',', '"'] + k2 + seq!['"', ':', '"']);
    assert(l3 =~= seq!['"', '}']);
    assert(k1.len() == 6 && k2.len() == 9);
    assert(k1 != k2);
    let eid = escape(id);
    let et = escape(t);
    let s0 = config_doc_of(id, Some(t));
    assert(s0 == l1 + eid + l2 + et + l3);
    assert(s0.len() == 28 + eid.len() + et.len());
    assert(s0[0] == '{');
    crate::json::lemma_skip_ws_nonws(s0);

    // the top-level object
    let s1 = s0.skip(1);
    assert(s1 =~= seq!['"'] + k1 + seq!['"', ':', '"'] + eid + l2 + et + l3);
    assert(s1[0] == '"');
    crate::json::lemma_skip_ws_nonws(s1);

    // first member: the identifier
    let r1 = seq![':', '"'] + eid + l2 + et + l3;
    assert(s1.skip(1) =~= escape(k1) + seq!['"'] + r1);
    crate::json::lemma_parse_string_body_escape(k1, r1);
    assert(crate::json::parse_string(s1) == Some((k1, r1)));
    assert(r1[0] == ':');
    crate::json::lemma_skip_ws_nonws(r1);
    let v1s = r1.skip(1);
    assert(v1s =~= seq!['"'] + (eid + l2 + et + l3));
    assert(v1s[0] == '"');
    crate::json::lemma_skip_ws_nonws(v1s);
    let r2 = seq![',', '"'] + k2 + seq!['"', ':', '"'] + et + l3;
    assert(v1s.skip(1) =~= escape(id) + seq!['"'] + r2);
    crate::json::lemma_parse_string_body_escape(id, r2);
    assert(crate::json::parse_prim(v1s) == Some((GPrim::Str(id), r2)));
    assert(crate::json::parse_val(v1s) == Some((GVal::Prim(GPrim::Str(id)), r2)));
    assert(r2[0] == ',');
    crate::json::lemma_skip_ws_nonws(r2);

    // second member: the token
    let s2 = r2.skip(1);
    assert(s2 =~= seq!['"'] + k2 + seq!['"', ':', '"'] + et + l3);
    assert(s2[0] == '"');
    crate::json::lemma_skip_ws_nonws(s2);
    let r3 = seq![':', '"'] + et + l3;
    assert(s2.skip(1) =~= escape(k2) + seq!['"'] + r3);
    crate::json::lemma_parse_string_body_escape(k2, r3);
    assert(crate::json::parse_string(s2) == Some((k2, r3)));
    assert(r3[0] == ':');
    crate::json::lemma_skip_ws_nonws(r3);
    let v2s = r3.skip(1);
    assert(v2s =~= seq!['"'] + (et + l3));
    assert(v2s[0] == '"');
    crate::json::lemma_skip_ws_nonws(v2s);
    let r4 = seq!['}'];
    assert(v2s.skip(1) =~= escape(t) + seq!['"'] + r4);
    crate::json::lemma_parse_string_body_escape(t, r4);
    assert(crate::json::parse_prim(v2s) == Some((GPrim::Str(t), r4)));
    assert(crate::json::parse_val(v2s) == Some((GVal::Prim(GPrim::Str(t)), r4)));
    assert(r4[0] == '}');
    crate::json::lemma_skip_ws_nonws(r4);
    assert(r4.skip(1) =~= Seq::<char>::empty());

    // assembling the member lists
    let f = s0.len();
    let p1 = (k1, GVal::Prim(GPrim::Str(id)));
    let p2 = (k2, GVal::Prim(GPrim::Str(t)));
    reveal_with_fuel(crate::json::parse_members, 3);
    assert(f - 1 >= 1);
    assert(crate::json::parse_members(s2, (f - 1) as nat) matches Some(mp) && mp.0 == seq![p2]
        && mp.1 == r4.skip(1));
    assert(crate::json::parse_members(s1, f as nat) matches Some(mp) && mp.0 == seq![p1] + seq![
        p2,
    ] && mp.1 == r4.skip(1));
    let pairs = seq![p1, p2];
    assert(seq![p1] + seq![p2] =~= pairs);
    assert(crate::json::parse_obj(s0) matches Some(op) && op.0 == pairs && op.1 == r4.skip(1));
    crate::json::lemma_skip_ws_nonws(r4.skip(1));
    assert(crate::json::parse_doc(s0) == Some(pairs));

    // reading the fields back
    reveal_with_fuel(crate::json::lookup_val, 3);
    assert(pairs[0] == p1);
    assert(crate::json::lookup_val(pairs, k1) == Some(GVal::Prim(GPrim::Str(id))));
    assert(crate::json::doc_str(pairs, k1) == Some(id));
    assert(pairs.skip(1) =~= seq![p2]);
    assert(crate::json::lookup_val(pairs, k2) == Some(GVal::Prim(GPrim::Str(t))));
    assert(config_of(s0) == Some((id, Some(t))));
}

/// Round trip of a document that carries no token.
#[verifier::rlimit(80)]
proof fn lemma_round_trip_none(id: Seq<char>)
    ensures
        config_of(config_doc_of(id, None)) == Some((id, None::<Seq<char>>)),
{
    reveal_strlit("{\"app_id\":\"");
    reveal_strlit("\"}");
    reveal_strlit("app_id");
    reveal_strlit("app_token");
    lemma_config_keys_plain();
    let l1 = "{\"app_id\":\""@;
    let l3 = "\"}"@;
    let k1 = "app_id"@;
    let k2 = "app_token"@;
    assert(l1 =~= seq!['{', '"'] + k1 + seq!['"', ':', '"']);
    assert(l3 =~= seq!['"', '}']);
    assert(k1.len() == 6 && k2.len() == 9);
    assert(k1 != k2);
    let eid = escape(id);
    let s0 = config_doc_of(id, None);
    assert(s0 == l1 + eid + l3);
    assert(s0.len() == 13 + eid.len());
    assert(s0[0] == '{');
    crate::json::lemma_skip_ws_nonws(s0);

    let s1 = s0.skip(1);
    assert(s1 =~= seq!['"'] + k1 + seq!['"', ':', '"'] + eid + l3);
    assert(s1[0] == '"');
    crate::json::lemma_skip_ws_nonws(s1);

    let r1 = seq![':', '"'] + eid + l3;
    assert(s1.skip(1) =~= escape(k1) + seq!['"'] + r1);
    crate::json::lemma_parse_string_body_escape(k1, r1);
    assert(crate::json::parse_string(s1) == Some((k1, r1)));
    assert(r1[0] == ':');
    crate::json::lemma_skip_ws_nonws(r1);
    let v1s = r1.skip(1);
    assert(v1s =~= seq!['"'] + (eid + l3));
    assert(v1s[0] == '"');
    crate::json::lemma_skip_ws_nonws(v1s);
    let r4 = seq!['}'];
    assert(v1s.skip(1) =~= escape(id) + seq!['"'] + r4);
    crate::json::lemma_parse_string_body_escape(id, r4);
    assert(crate::json::parse_prim(v1s) == Some((GPrim::Str(id), r4)));
    assert(crate::json::parse_val(v1s) == Some((GVal::Prim(GPrim::Str(id)), r4)));
    assert(r4[0] == '}');
    crate::json::lemma_skip_ws_nonws(r4);
    assert(r4.skip(1) =~= Seq::<char>::empty());

    let f = s0.len();
    let p1 = (k1, GVal::Prim(GPrim::Str(id)));
    reveal_with_fuel(crate::json::parse_members, 2);
    assert(crate::json::parse_members(s1, f as nat) matches Some(mp) && mp.0 == seq![p1] && mp.1
        == r4.skip(1));
    let pairs = seq![p1];
    assert(crate::json::parse_obj(s0) matches Some(op) && op.0 == pairs && op.1 == r4.skip(1));
    crate::json::lemma_skip_ws_nonws(r4.skip(1));
    assert(crate::json::parse_doc(s0) == Some(pairs));

    reveal_with_fuel(crate::json::lookup_val, 2);
    assert(pairs[0] == p1);
    assert(crate::json::lookup_val(pairs, k1) == Some(GVal::Prim(GPrim::Str(id))));
    assert(crate::json::doc_str(pairs, k1) == Some(id));
    assert(pairs.skip(1) =~= Seq::<(Seq<char>, GVal)>::empty());
    assert(crate::json::lookup_val(pairs, k2) is None);
    assert(config_of(s0) == Some((id, None::<Seq<char>>)));
}

/// Token-store round trip: the document written for an identity and an
/// optional token reads back as exactly that identity and token, whatever
/// characters they hold.
pub proof fn lemma_config_round_trip(id: Seq<char>, tok: Option<Seq<char>>)
    ensures
        config_of(config_doc_of(id, tok)) == Some((id, tok)),
{
    match tok {
        Some(t) => lemma_round_trip_some(id, t),
        None => lemma_round_trip_none(id),
    }
}


} // verus!
