//! The JSON shape of the router's protocol documents.
//!
//! Every document the core protocol exchanges is an object whose values are
//! primitives (strings, unsigned integers, booleans, null) or one nested
//! object of primitives (the response envelope's `result`). The grammar is
//! stated as spec functions in remainder style: each parser consumes a prefix
//! and yields the parsed value together with the unconsumed rest. The
//! executable parser is proved to return exactly what the grammar says.

use vstd::prelude::*;
use crate::strutil::string_from_chars;

verus! {

// ---------------------------------------------------------------------------
// Values
// ---------------------------------------------------------------------------

/// Mathematical model of a primitive JSON value.
pub enum GPrim {
    Null,
    Bool(bool),
    UInt(u64),
    Str(Seq<char>),
}

/// Mathematical model of a value one level deep: a primitive or a flat
/// object of primitives.
pub enum GVal {
    Prim(GPrim),
    Obj(Seq<(Seq<char>, GPrim)>),
}

/// Executable primitive JSON value.
pub enum Prim {
    Null,
    Bool(bool),
    UInt(u64),
    Str(String),
}

/// Executable value: a primitive or a flat object of primitives.
pub enum Val {
    Prim(Prim),
    Obj(Vec<(String, Prim)>),
}

impl View for Prim {
    type V = GPrim;

    open spec fn view(&self) -> GPrim {
        match self {
            Prim::Null => GPrim::Null,
            Prim::Bool(b) => GPrim::Bool(*b),
            Prim::UInt(n) => GPrim::UInt(*n),
            Prim::Str(s) => GPrim::Str(s@),
        }
    }
}

/// View of a list of key/primitive pairs.
pub open spec fn prim_pairs_view(v: Seq<(String, Prim)>) -> Seq<(Seq<char>, GPrim)> {
    v.map_values(|p: (String, Prim)| (p.0@, p.1@))
}

impl View for Val {
    type V = GVal;

    open spec fn view(&self) -> GVal {
        match self {
            Val::Prim(p) => GVal::Prim(p@),
            Val::Obj(m) => GVal::Obj(prim_pairs_view(m@)),
        }
    }
}

/// View of a list of key/value pairs.
pub open spec fn val_pairs_view(v: Seq<(String, Val)>) -> Seq<(Seq<char>, GVal)> {
    v.map_values(|p: (String, Val)| (p.0@, p.1@))
}

// ---------------------------------------------------------------------------
// The grammar, in spec functions
// ---------------------------------------------------------------------------

/// JSON whitespace.
pub open spec fn is_ws(c: char) -> bool {
    c == ' ' || c == '\n' || c == '\r' || c == '\t'
}

/// Drops leading whitespace.
pub open spec fn skip_ws(s: Seq<char>) -> Seq<char>
    decreases s.len(),
{
    if s.len() > 0 && is_ws(s[0]) {
        skip_ws(s.skip(1))
    } else {
        s
    }
}

/// The character stood for by a backslash escape, if the escape is accepted.
pub open spec fn unescape(c: char) -> Option<char> {
    if c == '"' { Some('"') } else if c == '\\' { Some('\\') } else if c == '/' { Some('/') }
    else if c == 'n' { Some('\n') } else if c == 't' { Some('\t') } else if c == 'r' { Some('\r') }
    else if c == 'b' { Some('\u{8}') } else if c == 'f' { Some('\u{c}') } else { None }
}

/// String contents after the opening quote, up to and including the closing
/// quote. Yields the unescaped text and the rest after the closing quote.
pub open spec fn parse_string_body(s: Seq<char>) -> Option<(Seq<char>, Seq<char>)>
    decreases s.len(),
{
    if s.len() == 0 {
        None
    } else if s[0] == '"' {
        Some((Seq::<char>::empty(), s.skip(1)))
    } else if s[0] == '\\' {
        if s.len() >= 2 {
            match unescape(s[1]) {
                Some(c) => match parse_string_body(s.skip(2)) {
                    Some(p) => Some((seq![c] + p.0, p.1)),
                    None => None,
                },
                None => None,
            }
        } else {
            None
        }
    } else {
        match parse_string_body(s.skip(1)) {
            Some(p) => Some((seq![s[0]] + p.0, p.1)),
            None => None,
        }
    }
}

/// A quoted string.
pub open spec fn parse_string(s: Seq<char>) -> Option<(Seq<char>, Seq<char>)> {
    if s.len() > 0 && s[0] == '"' {
        parse_string_body(s.skip(1))
    } else {
        None
    }
}

/// A decimal digit.
pub open spec fn is_digit(c: char) -> bool {
    '0' <= c && c <= '9'
}

/// Numeric value of a decimal digit.
pub open spec fn digit_val(c: char) -> int {
    c as int - '0' as int
}

/// Digits from the front of `s` accumulated onto `acc`; stops at the first
/// non-digit. Fails only when the value would not fit in 64 bits.
pub open spec fn parse_uint_loop(s: Seq<char>, acc: u64) -> Option<(u64, Seq<char>)>
    decreases s.len(),
{
    if s.len() == 0 || !is_digit(s[0]) {
        Some((acc, s))
    } else if acc * 10 + digit_val(s[0]) <= u64::MAX {
        parse_uint_loop(s.skip(1), (acc * 10 + digit_val(s[0])) as u64)
    } else {
        None
    }
}

/// A primitive value: string, unsigned integer, `true`, `false` or `null`.
pub open spec fn parse_prim(s: Seq<char>) -> Option<(GPrim, Seq<char>)> {
    if s.len() == 0 {
        None
    } else if s[0] == '"' {
        match parse_string_body(s.skip(1)) {
            Some(p) => Some((GPrim::Str(p.0), p.1)),
            None => None,
        }
    } else if is_digit(s[0]) {
        match parse_uint_loop(s, 0) {
            Some(p) => Some((GPrim::UInt(p.0), p.1)),
            None => None,
        }
    } else if s.len() >= 4 && s[0] == 't' && s[1] == 'r' && s[2] == 'u' && s[3] == 'e' {
        Some((GPrim::Bool(true), s.skip(4)))
    } else if s.len() >= 5 && s[0] == 'f' && s[1] == 'a' && s[2] == 'l' && s[3] == 's' && s[4]
        == 'e' {
        Some((GPrim::Bool(false), s.skip(5)))
    } else if s.len() >= 4 && s[0] == 'n' && s[1] == 'u' && s[2] == 'l' && s[3] == 'l' {
        Some((GPrim::Null, s.skip(4)))
    } else {
        None
    }
}

/// Members of a flat object of primitives, after the opening brace of a
/// non-empty object: `ws key ws : ws prim ws` then `,` more members or `}`.
/// `fuel` bounds the number of members; a member consumes at least one
/// character, so the length of the input always suffices.
pub open spec fn parse_prim_members(s: Seq<char>, fuel: nat) -> Option<
    (Seq<(Seq<char>, GPrim)>, Seq<char>),
>
    decreases fuel,
{
    if fuel == 0 {
        None
    } else {
        match parse_string(skip_ws(s)) {
            Some(kp) => {
                let r2 = skip_ws(kp.1);
                if r2.len() > 0 && r2[0] == ':' {
                    match parse_prim(skip_ws(r2.skip(1))) {
                        Some(vp) => {
                            let r5 = skip_ws(vp.1);
                            if r5.len() > 0 && r5[0] == ',' {
                                match parse_prim_members(r5.skip(1), (fuel - 1) as nat) {
                                    Some(mp) => Some((seq![(kp.0, vp.0)] + mp.0, mp.1)),
                                    None => None,
                                }
                            } else if r5.len() > 0 && r5[0] == '}' {
                                Some((seq![(kp.0, vp.0)], r5.skip(1)))
                            } else {
                                None
                            }
                        },
                        None => None,
                    }
                } else {
                    None
                }
            },
            None => None,
        }
    }
}

/// A flat object of primitives.
pub open spec fn parse_prim_obj(s: Seq<char>) -> Option<(Seq<(Seq<char>, GPrim)>, Seq<char>)> {
    if s.len() > 0 && s[0] == '{' {
        let r = skip_ws(s.skip(1));
        if r.len() > 0 && r[0] == '}' {
            Some((Seq::<(Seq<char>, GPrim)>::empty(), r.skip(1)))
        } else {
            parse_prim_members(s.skip(1), s.len())
        }
    } else {
        None
    }
}

/// A value one level deep: a flat object of primitives, or a primitive.
pub open spec fn parse_val(s: Seq<char>) -> Option<(GVal, Seq<char>)> {
    if s.len() > 0 && s[0] == '{' {
        match parse_prim_obj(s) {
            Some(p) => Some((GVal::Obj(p.0), p.1)),
            None => None,
        }
    } else {
        match parse_prim(s) {
            Some(p) => Some((GVal::Prim(p.0), p.1)),
            None => None,
        }
    }
}

/// Members of the top-level object, after its opening brace.
pub open spec fn parse_members(s: Seq<char>, fuel: nat) -> Option<
    (Seq<(Seq<char>, GVal)>, Seq<char>),
>
    decreases fuel,
{
    if fuel == 0 {
        None
    } else {
        match parse_string(skip_ws(s)) {
            Some(kp) => {
                let r2 = skip_ws(kp.1);
                if r2.len() > 0 && r2[0] == ':' {
                    match parse_val(skip_ws(r2.skip(1))) {
                        Some(vp) => {
                            let r5 = skip_ws(vp.1);
                            if r5.len() > 0 && r5[0] == ',' {
                                match parse_members(r5.skip(1), (fuel - 1) as nat) {
                                    Some(mp) => Some((seq![(kp.0, vp.0)] + mp.0, mp.1)),
                                    None => None,
                                }
                            } else if r5.len() > 0 && r5[0] == '}' {
                                Some((seq![(kp.0, vp.0)], r5.skip(1)))
                            } else {
                                None
                            }
                        },
                        None => None,
                    }
                } else {
                    None
                }
            },
            None => None,
        }
    }
}

/// The top-level object.
pub open spec fn parse_obj(s: Seq<char>) -> Option<(Seq<(Seq<char>, GVal)>, Seq<char>)> {
    if s.len() > 0 && s[0] == '{' {
        let r = skip_ws(s.skip(1));
        if r.len() > 0 && r[0] == '}' {
            Some((Seq::<(Seq<char>, GVal)>::empty(), r.skip(1)))
        } else {
            parse_members(s.skip(1), s.len())
        }
    } else {
        None
    }
}

/// A whole document: one top-level object with nothing but whitespace
/// around it.
pub open spec fn parse_doc(s: Seq<char>) -> Option<Seq<(Seq<char>, GVal)>> {
    match parse_obj(skip_ws(s)) {
        Some(p) => if skip_ws(p.1).len() == 0 {
            Some(p.0)
        } else {
            None
        },
        None => None,
    }
}

// ---------------------------------------------------------------------------
// Field lookup
// ---------------------------------------------------------------------------

/// First value bound to `key`, if any.
pub open spec fn lookup_prim(pairs: Seq<(Seq<char>, GPrim)>, key: Seq<char>) -> Option<GPrim>
    decreases pairs.len(),
{
    if pairs.len() == 0 {
        None
    } else if pairs[0].0 == key {
        Some(pairs[0].1)
    } else {
        lookup_prim(pairs.skip(1), key)
    }
}

/// First value bound to `key`, if any.
pub open spec fn lookup_val(pairs: Seq<(Seq<char>, GVal)>, key: Seq<char>) -> Option<GVal>
    decreases pairs.len(),
{
    if pairs.len() == 0 {
        None
    } else if pairs[0].0 == key {
        Some(pairs[0].1)
    } else {
        lookup_val(pairs.skip(1), key)
    }
}

// ---------------------------------------------------------------------------
// String escaping, for the documents this client writes
// ---------------------------------------------------------------------------

/// How one character is written inside a quoted string: quotes and
/// backslashes take an escape, everything else stands as itself.
pub open spec fn escape_char(c: char) -> Seq<char> {
    if c == '"' {
        seq!['\\', '"']
    } else if c == '\\' {
        seq!['\\', '\\']
    } else {
        seq![c]
    }
}

/// A string's text as written inside quotes.
pub open spec fn escape(s: Seq<char>) -> Seq<char>
    decreases s.len(),
{
    if s.len() == 0 {
        Seq::<char>::empty()
    } else {
        escape_char(s[0]) + escape(s.skip(1))
    }
}

// ---------------------------------------------------------------------------
// The executable parser
// ---------------------------------------------------------------------------

fn is_ws_exec(c: char) -> (r: bool)
    ensures
        r == is_ws(c),
{
    match c {
        ' ' | '\n' | '\r' | '\t' => true,
        _ => false,
    }
}

pub(crate) fn is_digit_exec(c: char) -> (r: bool)
    ensures
        r == is_digit(c),
{
    match c {
        '0' | '1' | '2' | '3' | '4' | '5' | '6' | '7' | '8' | '9' => true,
        _ => false,
    }
}

fn digit_u64(c: char) -> (r: u64)
    requires
        is_digit(c),
    ensures
        r as int == digit_val(c),
        r < 10,
{
    match c {
        '0' => 0,
        '1' => 1,
        '2' => 2,
        '3' => 3,
        '4' => 4,
        '5' => 5,
        '6' => 6,
        '7' => 7,
        '8' => 8,
        _ => 9,
    }
}

fn unescape_exec(c: char) -> (r: Option<char>)
    ensures
        r == unescape(c),
{
    match c {
        '"' => Some('"'),
        '\\' => Some('\\'),
        '/' => Some('/'),
        'n' => Some('\n'),
        't' => Some('\t'),
        'r' => Some('\r'),
        'b' => Some('\u{8}'),
        'f' => Some('\u{c}'),
        _ => None,
    }
}

/// Index just past the leading whitespace from `i` on.
fn skip_ws_exec(v: &Vec<char>, i: usize) -> (j: usize)
    requires
        i <= v@.len(),
    ensures
        i <= j <= v@.len(),
        v@.skip(j as int) == skip_ws(v@.skip(i as int)),
{
    let mut j: usize = i;
    while j < v.len() && is_ws_exec(v[j])
        invariant
            i <= j <= v@.len(),
            skip_ws(v@.skip(i as int)) == skip_ws(v@.skip(j as int)),
        decreases v@.len() - j,
    {
        proof {
            assert(v@.skip(j as int)[0] == v@[j as int]);
            assert(v@.skip(j as int).skip(1) =~= v@.skip(j as int + 1));
        }
        j = j + 1;
    }
    proof {
        if j < v.len() {
            assert(v@.skip(j as int)[0] == v@[j as int]);
        }
        assert(skip_ws(v@.skip(j as int)) == v@.skip(j as int));
    }
    j
}

/// String body from `i` (just after the opening quote).
fn parse_string_body_exec(v: &Vec<char>, i: usize) -> (r: Option<(Vec<char>, usize)>)
    requires
        i <= v@.len(),
    ensures
        match r {
            Some(p) => i <= p.1 <= v@.len() && parse_string_body(v@.skip(i as int)) == Some(
                (p.0@, v@.skip(p.1 as int)),
            ),
            None => parse_string_body(v@.skip(i as int)) is None,
        },
    decreases v@.len() - i,
{
    if i >= v.len() {
        return None;
    }
    let c = v[i];
    proof {
        assert(v@.skip(i as int)[0] == c);
    }
    if c == '"' {
        let out: Vec<char> = Vec::new();
        proof {
            assert(v@.skip(i as int).skip(1) =~= v@.skip(i as int + 1));
        }
        Some((out, i + 1))
    } else if c == '\\' {
        if i + 1 < v.len() {
            let e = v[i + 1];
            proof {
                assert(v@.skip(i as int)[1] == e);
            }
            match unescape_exec(e) {
                Some(u) => {
                    proof {
                        assert(v@.skip(i as int).skip(2) =~= v@.skip(i as int + 2));
                    }
                    match parse_string_body_exec(v, i + 2) {
                        Some(p) => {
                            let mut t = p.0;
                            let ghost t0 = t@;
                            t.insert(0, u);
                            proof {
                                assert(t@ =~= seq![u] + t0);
                            }
                            Some((t, p.1))
                        },
                        None => None,
                    }
                },
                None => None,
            }
        } else {
            None
        }
    } else {
        proof {
            assert(v@.skip(i as int).skip(1) =~= v@.skip(i as int + 1));
        }
        match parse_string_body_exec(v, i + 1) {
            Some(p) => {
                let mut t = p.0;
                let ghost t0 = t@;
                t.insert(0, c);
                proof {
                    assert(t@ =~= seq![c] + t0);
                }
                Some((t, p.1))
            },
            None => None,
        }
    }
}

/// A quoted string starting at `i`.
fn parse_string_exec(v: &Vec<char>, i: usize) -> (r: Option<(Vec<char>, usize)>)
    requires
        i <= v@.len(),
    ensures
        match r {
            Some(p) => i <= p.1 <= v@.len() && parse_string(v@.skip(i as int)) == Some(
                (p.0@, v@.skip(p.1 as int)),
            ),
            None => parse_string(v@.skip(i as int)) is None,
        },
{
    if i < v.len() && v[i] == '"' {
        proof {
            assert(v@.skip(i as int)[0] == v@[i as int]);
            assert(v@.skip(i as int).skip(1) =~= v@.skip(i as int + 1));
        }
        parse_string_body_exec(v, i + 1)
    } else {
        proof {
            if i < v.len() {
                assert(v@.skip(i as int)[0] == v@[i as int]);
            }
        }
        None
    }
}

/// Digits from `i` on, accumulated onto `acc`.
pub(crate) fn parse_uint_loop_exec(v: &Vec<char>, i: usize, acc: u64) -> (r: Option<(u64, usize)>)
    requires
        i <= v@.len(),
    ensures
        match r {
            Some(p) => i <= p.1 <= v@.len() && parse_uint_loop(v@.skip(i as int), acc) == Some(
                (p.0, v@.skip(p.1 as int)),
            ),
            None => parse_uint_loop(v@.skip(i as int), acc) is None,
        },
    decreases v@.len() - i,
{
    if i >= v.len() {
        return Some((acc, i));
    }
    let c = v[i];
    proof {
        assert(v@.skip(i as int)[0] == c);
    }
    if !is_digit_exec(c) {
        return Some((acc, i));
    }
    let d = digit_u64(c);
    match acc.checked_mul(10) {
        Some(m) => match m.checked_add(d) {
            Some(a) => {
                proof {
                    assert(v@.skip(i as int).skip(1) =~= v@.skip(i as int + 1));
                }
                parse_uint_loop_exec(v, i + 1, a)
            },
            None => None,
        },
        None => None,
    }
}

/// A primitive value starting at `i`.
fn parse_prim_exec(v: &Vec<char>, i: usize) -> (r: Option<(Prim, usize)>)
    requires
        i <= v@.len(),
    ensures
        match r {
            Some(p) => i <= p.1 <= v@.len() && parse_prim(v@.skip(i as int)) == Some(
                (p.0@, v@.skip(p.1 as int)),
            ),
            None => parse_prim(v@.skip(i as int)) is None,
        },
{
    if i >= v.len() {
        return None;
    }
    let c = v[i];
    proof {
        assert(v@.skip(i as int)[0] == c);
        assert(v@.skip(i as int).len() == v@.len() - i);
    }
    if c == '"' {
        proof {
            assert(v@.skip(i as int).skip(1) =~= v@.skip(i as int + 1));
        }
        match parse_string_body_exec(v, i + 1) {
            Some(p) => Some((Prim::Str(string_from_chars(&p.0)), p.1)),
            None => None,
        }
    } else if is_digit_exec(c) {
        match parse_uint_loop_exec(v, i, 0) {
            Some(p) => Some((Prim::UInt(p.0), p.1)),
            None => None,
        }
    } else if c == 't' {
        if v.len() - i >= 4 && v[i + 1] == 'r' && v[i + 2] == 'u' && v[i + 3] == 'e' {
            proof {
                assert(v@.skip(i as int)[1] == v@[i as int + 1]);
                assert(v@.skip(i as int)[2] == v@[i as int + 2]);
                assert(v@.skip(i as int)[3] == v@[i as int + 3]);
                assert(v@.skip(i as int).skip(4) =~= v@.skip(i as int + 4));
            }
            Some((Prim::Bool(true), i + 4))
        } else {
            proof {
                if v.len() - i >= 4 {
                    assert(v@.skip(i as int)[1] == v@[i as int + 1]);
                    assert(v@.skip(i as int)[2] == v@[i as int + 2]);
                    assert(v@.skip(i as int)[3] == v@[i as int + 3]);
                }
            }
            None
        }
    } else if c == 'f' {
        if v.len() - i >= 5 && v[i + 1] == 'a' && v[i + 2] == 'l' && v[i + 3] == 's' && v[i + 4]
            == 'e' {
            proof {
                assert(v@.skip(i as int)[1] == v@[i as int + 1]);
                assert(v@.skip(i as int)[2] == v@[i as int + 2]);
                assert(v@.skip(i as int)[3] == v@[i as int + 3]);
                assert(v@.skip(i as int)[4] == v@[i as int + 4]);
                assert(v@.skip(i as int).skip(5) =~= v@.skip(i as int + 5));
            }
            Some((Prim::Bool(false), i + 5))
        } else {
            proof {
                if v.len() - i >= 5 {
                    assert(v@.skip(i as int)[1] == v@[i as int + 1]);
                    assert(v@.skip(i as int)[2] == v@[i as int + 2]);
                    assert(v@.skip(i as int)[3] == v@[i as int + 3]);
                    assert(v@.skip(i as int)[4] == v@[i as int + 4]);
                }
            }
            None
        }
    } else if c == 'n' {
        if v.len() - i >= 4 && v[i + 1] == 'u' && v[i + 2] == 'l' && v[i + 3] == 'l' {
            proof {
                assert(v@.skip(i as int)[1] == v@[i as int + 1]);
                assert(v@.skip(i as int)[2] == v@[i as int + 2]);
                assert(v@.skip(i as int)[3] == v@[i as int + 3]);
                assert(v@.skip(i as int).skip(4) =~= v@.skip(i as int + 4));
            }
            Some((Prim::Null, i + 4))
        } else {
            proof {
                if v.len() - i >= 4 {
                    assert(v@.skip(i as int)[1] == v@[i as int + 1]);
                    assert(v@.skip(i as int)[2] == v@[i as int + 2]);
                    assert(v@.skip(i as int)[3] == v@[i as int + 3]);
                }
            }
            None
        }
    } else {
        None
    }
}


/// A value starting at `i`: a flat object or a primitive.
fn parse_val_exec(v: &Vec<char>, i: usize) -> (r: Option<(Val, usize)>)
    requires
        i <= v@.len(),
    ensures
        match r {
            Some(p) => i <= p.1 <= v@.len() && parse_val(v@.skip(i as int)) == Some(
                (p.0@, v@.skip(p.1 as int)),
            ),
            None => parse_val(v@.skip(i as int)) is None,
        },
{
    proof {
        if i < v.len() {
            assert(v@.skip(i as int)[0] == v@[i as int]);
        }
    }
    if i < v.len() && v[i] == '{' {
        match parse_prim_obj_exec(v, i) {
            Some(p) => Some((Val::Obj(p.0), p.1)),
            None => None,
        }
    } else {
        match parse_prim_exec(v, i) {
            Some(p) => Some((Val::Prim(p.0), p.1)),
            None => None,
        }
    }
}

/// A flat object of primitives starting at `i`.
fn parse_prim_obj_exec(v: &Vec<char>, i: usize) -> (r: Option<(Vec<(String, Prim)>, usize)>)
    requires
        i <= v@.len(),
    ensures
        match r {
            Some(p) => i <= p.1 <= v@.len() && parse_prim_obj(v@.skip(i as int)) == Some(
                (prim_pairs_view(p.0@), v@.skip(p.1 as int)),
            ),
            None => parse_prim_obj(v@.skip(i as int)) is None,
        },
{
    proof {
        if i < v.len() {
            assert(v@.skip(i as int)[0] == v@[i as int]);
        }
    }
    if i < v.len() && v[i] == '{' {
        proof {
            assert(v@.skip(i as int).skip(1) =~= v@.skip(i as int + 1));
        }
        let j = skip_ws_exec(v, i + 1);
        proof {
            if j < v.len() {
                assert(v@.skip(j as int)[0] == v@[j as int]);
            }
        }
        if j < v.len() && v[j] == '}' {
            let out: Vec<(String, Prim)> = Vec::new();
            proof {
                assert(prim_pairs_view(out@) =~= Seq::<(Seq<char>, GPrim)>::empty());
                assert(v@.skip(j as int).skip(1) =~= v@.skip(j as int + 1));
            }
            Some((out, j + 1))
        } else {
            proof {
                assert(v@.skip(i as int).len() == v@.len() - i);
            }
            parse_prim_members_exec(v, i + 1, v.len() - i)
        }
    } else {
        None
    }
}

/// Members of a flat object of primitives, from `i` (just after the brace).
fn parse_prim_members_exec(v: &Vec<char>, i: usize, fuel: usize) -> (r: Option<
    (Vec<(String, Prim)>, usize),
>)
    requires
        i <= v@.len(),
    ensures
        match r {
            Some(p) => i <= p.1 <= v@.len() && parse_prim_members(v@.skip(i as int), fuel as nat)
                == Some((prim_pairs_view(p.0@), v@.skip(p.1 as int))),
            None => parse_prim_members(v@.skip(i as int), fuel as nat) is None,
        },
    decreases fuel,
{
    if fuel == 0 {
        return None;
    }
    let j1 = skip_ws_exec(v, i);
    match parse_string_exec(v, j1) {
        Some(kp) => {
            let key = string_from_chars(&kp.0);
            let j2 = skip_ws_exec(v, kp.1);
            proof {
                if j2 < v.len() {
                    assert(v@.skip(j2 as int)[0] == v@[j2 as int]);
                }
            }
            if j2 < v.len() && v[j2] == ':' {
                proof {
                    assert(v@.skip(j2 as int).skip(1) =~= v@.skip(j2 as int + 1));
                }
                let j3 = skip_ws_exec(v, j2 + 1);
                match parse_prim_exec(v, j3) {
                    Some(vp) => {
                        let j5 = skip_ws_exec(v, vp.1);
                        proof {
                            if j5 < v.len() {
                                assert(v@.skip(j5 as int)[0] == v@[j5 as int]);
                            }
                        }
                        if j5 < v.len() && v[j5] == ',' {
                            proof {
                                assert(v@.skip(j5 as int).skip(1) =~= v@.skip(j5 as int + 1));
                            }
                            match parse_prim_members_exec(v, j5 + 1, fuel - 1) {
                                Some(mp) => {
                                    let mut pairs = mp.0;
                                    let ghost tail = pairs@;
                                    pairs.insert(0, (key, vp.0));
                                    proof {
                                        assert(prim_pairs_view(pairs@) =~= seq![
                                            (kp.0@, vp.0@),
                                        ] + prim_pairs_view(tail));
                                    }
                                    Some((pairs, mp.1))
                                },
                                None => None,
                            }
                        } else if j5 < v.len() && v[j5] == '}' {
                            let mut pairs: Vec<(String, Prim)> = Vec::new();
                            pairs.push((key, vp.0));
                            proof {
                                assert(prim_pairs_view(pairs@) =~= seq![(kp.0@, vp.0@)]);
                                assert(v@.skip(j5 as int).skip(1) =~= v@.skip(j5 as int + 1));
                            }
                            Some((pairs, j5 + 1))
                        } else {
                            None
                        }
                    },
                    None => None,
                }
            } else {
                None
            }
        },
        None => None,
    }
}

/// Members of the top-level object, from `i` (just after the brace).
fn parse_members_exec(v: &Vec<char>, i: usize, fuel: usize) -> (r: Option<
    (Vec<(String, Val)>, usize),
>)
    requires
        i <= v@.len(),
    ensures
        match r {
            Some(p) => i <= p.1 <= v@.len() && parse_members(v@.skip(i as int), fuel as nat)
                == Some((val_pairs_view(p.0@), v@.skip(p.1 as int))),
            None => parse_members(v@.skip(i as int), fuel as nat) is None,
        },
    decreases fuel,
{
    if fuel == 0 {
        return None;
    }
    let j1 = skip_ws_exec(v, i);
    match parse_string_exec(v, j1) {
        Some(kp) => {
            let key = string_from_chars(&kp.0);
            let j2 = skip_ws_exec(v, kp.1);
            proof {
                if j2 < v.len() {
                    assert(v@.skip(j2 as int)[0] == v@[j2 as int]);
                }
            }
            if j2 < v.len() && v[j2] == ':' {
                proof {
                    assert(v@.skip(j2 as int).skip(1) =~= v@.skip(j2 as int + 1));
                }
                let j3 = skip_ws_exec(v, j2 + 1);
                match parse_val_exec(v, j3) {
                    Some(vp) => {
                        let j5 = skip_ws_exec(v, vp.1);
                        proof {
                            if j5 < v.len() {
                                assert(v@.skip(j5 as int)[0] == v@[j5 as int]);
                            }
                        }
                        if j5 < v.len() && v[j5] == ',' {
                            proof {
                                assert(v@.skip(j5 as int).skip(1) =~= v@.skip(j5 as int + 1));
                            }
                            match parse_members_exec(v, j5 + 1, fuel - 1) {
                                Some(mp) => {
                                    let mut pairs = mp.0;
                                    let ghost tail = pairs@;
                                    pairs.insert(0, (key, vp.0));
                                    proof {
                                        assert(val_pairs_view(pairs@) =~= seq![
                                            (kp.0@, vp.0@),
                                        ] + val_pairs_view(tail));
                                    }
                                    Some((pairs, mp.1))
                                },
                                None => None,
                            }
                        } else if j5 < v.len() && v[j5] == '}' {
                            let mut pairs: Vec<(String, Val)> = Vec::new();
                            pairs.push((key, vp.0));
                            proof {
                                assert(val_pairs_view(pairs@) =~= seq![(kp.0@, vp.0@)]);
                                assert(v@.skip(j5 as int).skip(1) =~= v@.skip(j5 as int + 1));
                            }
                            Some((pairs, j5 + 1))
                        } else {
                            None
                        }
                    },
                    None => None,
                }
            } else {
                None
            }
        },
        None => None,
    }
}

/// The top-level object starting at `i`.
fn parse_obj_exec(v: &Vec<char>, i: usize) -> (r: Option<(Vec<(String, Val)>, usize)>)
    requires
        i <= v@.len(),
    ensures
        match r {
            Some(p) => i <= p.1 <= v@.len() && parse_obj(v@.skip(i as int)) == Some(
                (val_pairs_view(p.0@), v@.skip(p.1 as int)),
            ),
            None => parse_obj(v@.skip(i as int)) is None,
        },
{
    proof {
        if i < v.len() {
            assert(v@.skip(i as int)[0] == v@[i as int]);
        }
    }
    if i < v.len() && v[i] == '{' {
        proof {
            assert(v@.skip(i as int).skip(1) =~= v@.skip(i as int + 1));
        }
        let j = skip_ws_exec(v, i + 1);
        proof {
            if j < v.len() {
                assert(v@.skip(j as int)[0] == v@[j as int]);
            }
        }
        if j < v.len() && v[j] == '}' {
            let out: Vec<(String, Val)> = Vec::new();
            proof {
                assert(val_pairs_view(out@) =~= Seq::<(Seq<char>, GVal)>::empty());
                assert(v@.skip(j as int).skip(1) =~= v@.skip(j as int + 1));
            }
            Some((out, j + 1))
        } else {
            proof {
                assert(v@.skip(i as int).len() == v@.len() - i);
            }
            parse_members_exec(v, i + 1, v.len() - i)
        }
    } else {
        None
    }
}

/// Parses a whole document held in a character vector.
fn parse_doc_exec(v: &Vec<char>) -> (r: Option<Vec<(String, Val)>>)
    ensures
        match r {
            Some(d) => parse_doc(v@) == Some(val_pairs_view(d@)),
            None => parse_doc(v@) is None,
        },
{
    proof {
        assert(v@.skip(0) =~= v@);
    }
    let j = skip_ws_exec(v, 0);
    match parse_obj_exec(v, j) {
        Some(p) => {
            let k = skip_ws_exec(v, p.1);
            if k == v.len() {
                proof {
                    assert(v@.skip(k as int).len() == 0);
                }
                Some(p.0)
            } else {
                proof {
                    assert(v@.skip(k as int).len() > 0);
                }
                None
            }
        },
        None => None,
    }
}

/// Parses a whole document: one top-level object, nothing else.
pub fn parse_doc_str(s: &str) -> (r: Option<Vec<(String, Val)>>)
    ensures
        match r {
            Some(d) => parse_doc(s@) == Some(val_pairs_view(d@)),
            None => parse_doc(s@) is None,
        },
{
    let v = crate::strutil::to_chars(s);
    parse_doc_exec(&v)
}

// ---------------------------------------------------------------------------
// Executable lookup and escaping
// ---------------------------------------------------------------------------

/// Index of the first member named `key`, if any.
pub fn find_prim(pairs: &Vec<(String, Prim)>, key: &str) -> (r: Option<usize>)
    ensures
        match r {
            Some(k) => k < pairs@.len() && lookup_prim(prim_pairs_view(pairs@), key@) == Some(
                pairs@[k as int].1@,
            ),
            None => lookup_prim(prim_pairs_view(pairs@), key@) is None,
        },
{
    let ghost pp = prim_pairs_view(pairs@);
    proof {
        assert(pp.skip(0) =~= pp);
    }
    let mut i: usize = 0;
    while i < pairs.len()
        invariant
            i <= pairs@.len(),
            pp == prim_pairs_view(pairs@),
            pp.len() == pairs@.len(),
            lookup_prim(pp, key@) == lookup_prim(pp.skip(i as int), key@),
        decreases pairs@.len() - i,
    {
        proof {
            assert(pp.skip(i as int)[0] == pp[i as int]);
        }
        let p = &pairs[i];
        if crate::strutil::str_eq(p.0.as_str(), key) {
            return Some(i);
        }
        proof {
            assert(pp.skip(i as int).skip(1) =~= pp.skip(i as int + 1));
        }
        i = i + 1;
    }
    proof {
        assert(pp.skip(i as int).len() == 0);
    }
    None
}

/// Index of the first member named `key`, if any.
pub fn find_val(pairs: &Vec<(String, Val)>, key: &str) -> (r: Option<usize>)
    ensures
        match r {
            Some(k) => k < pairs@.len() && lookup_val(val_pairs_view(pairs@), key@) == Some(
                pairs@[k as int].1@,
            ),
            None => lookup_val(val_pairs_view(pairs@), key@) is None,
        },
{
    let ghost pp = val_pairs_view(pairs@);
    proof {
        assert(pp.skip(0) =~= pp);
    }
    let mut i: usize = 0;
    while i < pairs.len()
        invariant
            i <= pairs@.len(),
            pp == val_pairs_view(pairs@),
            pp.len() == pairs@.len(),
            lookup_val(pp, key@) == lookup_val(pp.skip(i as int), key@),
        decreases pairs@.len() - i,
    {
        proof {
            assert(pp.skip(i as int)[0] == pp[i as int]);
        }
        let p = &pairs[i];
        if crate::strutil::str_eq(p.0.as_str(), key) {
            return Some(i);
        }
        proof {
            assert(pp.skip(i as int).skip(1) =~= pp.skip(i as int + 1));
        }
        i = i + 1;
    }
    proof {
        assert(pp.skip(i as int).len() == 0);
    }
    None
}

/// Escapes the characters of `v` from `i` on.
fn escape_from(v: &Vec<char>, i: usize) -> (r: Vec<char>)
    requires
        i <= v@.len(),
    ensures
        r@ == escape(v@.skip(i as int)),
    decreases v@.len() - i,
{
    if i == v.len() {
        let out: Vec<char> = Vec::new();
        proof {
            assert(v@.skip(i as int).len() == 0);
        }
        out
    } else {
        let c = v[i];
        proof {
            assert(v@.skip(i as int)[0] == c);
            assert(v@.skip(i as int).skip(1) =~= v@.skip(i as int + 1));
        }
        let mut rest = escape_from(v, i + 1);
        let ghost tail = rest@;
        if c == '"' {
            rest.insert(0, '"');
            rest.insert(0, '\\');
        } else if c == '\\' {
            rest.insert(0, '\\');
            rest.insert(0, '\\');
        } else {
            rest.insert(0, c);
        }
        proof {
            assert(rest@ =~= escape_char(c) + tail);
        }
        rest
    }
}

/// The text of `s` as written inside a quoted string.
pub fn escaped_chars(s: &str) -> (r: Vec<char>)
    ensures
        r@ == escape(s@),
{
    let v = crate::strutil::to_chars(s);
    proof {
        assert(v@.skip(0) =~= v@);
    }
    escape_from(&v, 0)
}



// ---------------------------------------------------------------------------
// Typed field access on parsed documents
// ---------------------------------------------------------------------------

/// String field of a top-level object.
pub open spec fn doc_str(pairs: Seq<(Seq<char>, GVal)>, key: Seq<char>) -> Option<Seq<char>> {
    match lookup_val(pairs, key) {
        Some(GVal::Prim(GPrim::Str(t))) => Some(t),
        _ => None,
    }
}

/// Boolean field of a top-level object.
pub open spec fn doc_bool(pairs: Seq<(Seq<char>, GVal)>, key: Seq<char>) -> Option<bool> {
    match lookup_val(pairs, key) {
        Some(GVal::Prim(GPrim::Bool(b))) => Some(b),
        _ => None,
    }
}

/// Unsigned integer field of a top-level object.
pub open spec fn doc_uint(pairs: Seq<(Seq<char>, GVal)>, key: Seq<char>) -> Option<u64> {
    match lookup_val(pairs, key) {
        Some(GVal::Prim(GPrim::UInt(n))) => Some(n),
        _ => None,
    }
}

/// Object-valued field of a top-level object.
pub open spec fn doc_obj(pairs: Seq<(Seq<char>, GVal)>, key: Seq<char>) -> Option<
    Seq<(Seq<char>, GPrim)>,
> {
    match lookup_val(pairs, key) {
        Some(GVal::Obj(m)) => Some(m),
        _ => None,
    }
}

/// String field of a flat object of primitives.
pub open spec fn obj_str(pairs: Seq<(Seq<char>, GPrim)>, key: Seq<char>) -> Option<Seq<char>> {
    match lookup_prim(pairs, key) {
        Some(GPrim::Str(t)) => Some(t),
        _ => None,
    }
}

/// Boolean field of a flat object of primitives.
pub open spec fn obj_bool(pairs: Seq<(Seq<char>, GPrim)>, key: Seq<char>) -> Option<bool> {
    match lookup_prim(pairs, key) {
        Some(GPrim::Bool(b)) => Some(b),
        _ => None,
    }
}

/// Unsigned integer field of a flat object of primitives.
pub open spec fn obj_uint(pairs: Seq<(Seq<char>, GPrim)>, key: Seq<char>) -> Option<u64> {
    match lookup_prim(pairs, key) {
        Some(GPrim::UInt(n)) => Some(n),
        _ => None,
    }
}

/// Reads a string field of a top-level object.
pub fn doc_str_field(pairs: &Vec<(String, Val)>, key: &str) -> (r: Option<String>)
    ensures
        match r {
            Some(t) => doc_str(val_pairs_view(pairs@), key@) == Some(t@),
            None => doc_str(val_pairs_view(pairs@), key@) is None,
        },
{
    match find_val(pairs, key) {
        Some(k) => match &pairs[k].1 {
            Val::Prim(Prim::Str(t)) => Some(t.clone()),
            _ => None,
        },
        None => None,
    }
}

/// Reads a boolean field of a top-level object.
pub fn doc_bool_field(pairs: &Vec<(String, Val)>, key: &str) -> (r: Option<bool>)
    ensures
        match r {
            Some(b) => doc_bool(val_pairs_view(pairs@), key@) == Some(b),
            None => doc_bool(val_pairs_view(pairs@), key@) is None,
        },
{
    match find_val(pairs, key) {
        Some(k) => match &pairs[k].1 {
            Val::Prim(Prim::Bool(b)) => Some(*b),
            _ => None,
        },
        None => None,
    }
}

/// Reads an unsigned integer field of a top-level object.
pub fn doc_uint_field(pairs: &Vec<(String, Val)>, key: &str) -> (r: Option<u64>)
    ensures
        match r {
            Some(n) => doc_uint(val_pairs_view(pairs@), key@) == Some(n),
            None => doc_uint(val_pairs_view(pairs@), key@) is None,
        },
{
    match find_val(pairs, key) {
        Some(k) => match &pairs[k].1 {
            Val::Prim(Prim::UInt(n)) => Some(*n),
            _ => None,
        },
        None => None,
    }
}

/// Reads an object-valued field of a top-level object.
pub fn doc_obj_field<'a>(pairs: &'a Vec<(String, Val)>, key: &str) -> (r: Option<
    &'a Vec<(String, Prim)>,
>)
    ensures
        match r {
            Some(m) => doc_obj(val_pairs_view(pairs@), key@) == Some(prim_pairs_view(m@)),
            None => doc_obj(val_pairs_view(pairs@), key@) is None,
        },
{
    match find_val(pairs, key) {
        Some(k) => match &pairs[k].1 {
            Val::Obj(m) => Some(m),
            _ => None,
        },
        None => None,
    }
}

/// Reads a string field of a flat object of primitives.
pub fn obj_str_field(pairs: &Vec<(String, Prim)>, key: &str) -> (r: Option<String>)
    ensures
        match r {
            Some(t) => obj_str(prim_pairs_view(pairs@), key@) == Some(t@),
            None => obj_str(prim_pairs_view(pairs@), key@) is None,
        },
{
    match find_prim(pairs, key) {
        Some(k) => match &pairs[k].1 {
            Prim::Str(t) => Some(t.clone()),
            _ => None,
        },
        None => None,
    }
}

/// Reads a boolean field of a flat object of primitives.
pub fn obj_bool_field(pairs: &Vec<(String, Prim)>, key: &str) -> (r: Option<bool>)
    ensures
        match r {
            Some(b) => obj_bool(prim_pairs_view(pairs@), key@) == Some(b),
            None => obj_bool(prim_pairs_view(pairs@), key@) is None,
        },
{
    match find_prim(pairs, key) {
        Some(k) => match &pairs[k].1 {
            Prim::Bool(b) => Some(*b),
            _ => None,
        },
        None => None,
    }
}

/// Reads an unsigned integer field of a flat object of primitives.
pub fn obj_uint_field(pairs: &Vec<(String, Prim)>, key: &str) -> (r: Option<u64>)
    ensures
        match r {
            Some(n) => obj_uint(prim_pairs_view(pairs@), key@) == Some(n),
            None => obj_uint(prim_pairs_view(pairs@), key@) is None,
        },
{
    match find_prim(pairs, key) {
        Some(k) => match &pairs[k].1 {
            Prim::UInt(n) => Some(*n),
            _ => None,
        },
        None => None,
    }
}



// ---------------------------------------------------------------------------
// Facts about parsing what this client writes
// ---------------------------------------------------------------------------

/// Whitespace skipping does nothing on input that does not start with
/// whitespace.
pub proof fn lemma_skip_ws_nonws(s: Seq<char>)
    requires
        s.len() == 0 || !is_ws(s[0]),
    ensures
        skip_ws(s) == s,
{
}

/// Escaping text without quotes or backslashes leaves it unchanged.
pub proof fn lemma_escape_plain(t: Seq<char>)
    requires
        forall|j: int| 0 <= j < t.len() ==> t[j] != '"' && t[j] != '\\',
    ensures
        escape(t) == t,
    decreases t.len(),
{
    if t.len() == 0 {
        assert(escape(t) =~= t);
    } else {
        assert(forall|j: int| 0 <= j < t.skip(1).len() ==> t.skip(1)[j] == t[j + 1]);
        lemma_escape_plain(t.skip(1));
        assert(escape_char(t[0]) == seq![t[0]]);
        assert(escape(t) =~= t);
    }
}

/// A string body laid out as escaped text, closing quote and a tail parses
/// back to exactly that text, leaving exactly that tail.
pub proof fn lemma_parse_string_body_escape(t: Seq<char>, rest: Seq<char>)
    ensures
        parse_string_body(escape(t) + seq!['"'] + rest) == Some((t, rest)),
    decreases t.len(),
{
    let s = escape(t) + seq!['"'] + rest;
    if t.len() == 0 {
        assert(escape(t).len() == 0);
        assert(s[0] == '"');
        assert(s.skip(1) =~= rest);
    } else {
        lemma_parse_string_body_escape(t.skip(1), rest);
        let c = t[0];
        assert(escape(t) == escape_char(c) + escape(t.skip(1)));
        if c == '"' {
            assert(s[0] == '\\');
            assert(s[1] == '"');
            assert(s.len() >= 2);
            assert(s.skip(2) =~= escape(t.skip(1)) + seq!['"'] + rest);
            assert(parse_string_body(s) == Some((seq![c] + t.skip(1), rest)));
            assert(seq![c] + t.skip(1) =~= t);
        } else if c == '\\' {
            assert(s[0] == '\\');
            assert(s[1] == '\\');
            assert(s.len() >= 2);
            assert(s.skip(2) =~= escape(t.skip(1)) + seq!['"'] + rest);
            assert(parse_string_body(s) == Some((seq![c] + t.skip(1), rest)));
            assert(seq![c] + t.skip(1) =~= t);
        } else {
            assert(s[0] == c);
            assert(s.skip(1) =~= escape(t.skip(1)) + seq!['"'] + rest);
            assert(parse_string_body(s) == Some((seq![c] + t.skip(1), rest)));
            assert(seq![c] + t.skip(1) =~= t);
        }
    }
}


} // verus!
