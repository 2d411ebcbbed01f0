//! A small JSON data model with a verified parser and serializer.
//!
//! The wire format of the remote service is JSON whose numbers are all
//! unsigned 64-bit counts.  `Json` therefore models numbers as `u64`; a
//! body holding a fraction, an exponent or a negative number does not
//! parse, and the callers report that as a decode error.  Unicode escape
//! sequences are likewise rejected: the service sends text as raw UTF-8,
//! and the serializer never emits them.

use vstd::prelude::*;
use vstd::string::*;

verus! {

/// A JSON value.  Objects keep their members in wire order; a lookup
/// takes the first member with a matching key.
#[derive(Debug, PartialEq)]
pub enum Json {
    Null,
    Bool(bool),
    Num(u64),
    Str(String),
    Arr(Vec<Json>),
    Obj(Vec<(String, Json)>),
}

/// The mathematical model of a `Json` value.
pub enum JsonV {
    Null,
    Bool(bool),
    Num(u64),
    Str(Seq<char>),
    Arr(Seq<JsonV>),
    Obj(Seq<(Seq<char>, JsonV)>),
}

pub open spec fn jview(j: Json) -> JsonV
    decreases j, 1int,
{
    match j {
        Json::Null => JsonV::Null,
        Json::Bool(b) => JsonV::Bool(b),
        Json::Num(n) => JsonV::Num(n),
        Json::Str(s) => JsonV::Str(s@),
        Json::Arr(v) => JsonV::Arr(jview_arr(v@)),
        Json::Obj(v) => JsonV::Obj(jview_obj(v@)),
    }
}

pub open spec fn jview_arr(s: Seq<Json>) -> Seq<JsonV>
    decreases s, 0int,
{
    if s.len() == 0 {
        Seq::empty()
    } else {
        seq![jview(s[0])] + jview_arr(s.drop_first())
    }
}

pub open spec fn jview_obj(s: Seq<(String, Json)>) -> Seq<(Seq<char>, JsonV)>
    decreases s, 0int,
{
    if s.len() == 0 {
        Seq::empty()
    } else {
        seq![(s[0].0@, jview(s[0].1))] + jview_obj(s.drop_first())
    }
}

impl View for Json {
    type V = JsonV;

    open spec fn view(&self) -> JsonV {
        jview(*self)
    }
}

pub proof fn lemma_jview_arr_len(s: Seq<Json>)
    ensures
        jview_arr(s).len() == s.len(),
        forall|i: int| 0 <= i < s.len() ==> #[trigger] jview_arr(s)[i] == jview(s[i]),
    decreases s.len(),
{
    if s.len() > 0 {
        lemma_jview_arr_len(s.drop_first());
    }
}

pub proof fn lemma_jview_obj_len(s: Seq<(String, Json)>)
    ensures
        jview_obj(s).len() == s.len(),
        forall|i: int| 0 <= i < s.len() ==> #[trigger] jview_obj(s)[i] == (s[i].0@, jview(
            s[i].1,
        )),
    decreases s.len(),
{
    if s.len() > 0 {
        lemma_jview_obj_len(s.drop_first());
    }
}

// ---------------------------------------------------------------------------
// Member lookup
// ---------------------------------------------------------------------------
/// The value of the first member named `k`, if any.
pub open spec fn lookup(o: Seq<(Seq<char>, JsonV)>, k: Seq<char>) -> Option<JsonV>
    decreases o.len(),
{
    if o.len() == 0 {
        None
    } else if o[0].0 == k {
        Some(o[0].1)
    } else {
        lookup(o.drop_first(), k)
    }
}

pub open spec fn lookup_u64(o: Seq<(Seq<char>, JsonV)>, k: Seq<char>) -> Option<u64> {
    match lookup(o, k) {
        Some(JsonV::Num(n)) => Some(n),
        _ => None,
    }
}

pub open spec fn lookup_bool(o: Seq<(Seq<char>, JsonV)>, k: Seq<char>) -> Option<bool> {
    match lookup(o, k) {
        Some(JsonV::Bool(b)) => Some(b),
        _ => None,
    }
}

pub open spec fn lookup_str(o: Seq<(Seq<char>, JsonV)>, k: Seq<char>) -> Option<Seq<char>> {
    match lookup(o, k) {
        Some(JsonV::Str(s)) => Some(s),
        _ => None,
    }
}

pub open spec fn lookup_obj(o: Seq<(Seq<char>, JsonV)>, k: Seq<char>) -> Option<
    Seq<(Seq<char>, JsonV)>,
> {
    match lookup(o, k) {
        Some(JsonV::Obj(m)) => Some(m),
        _ => None,
    }
}

pub open spec fn lookup_arr(o: Seq<(Seq<char>, JsonV)>, k: Seq<char>) -> Option<Seq<JsonV>> {
    match lookup(o, k) {
        Some(JsonV::Arr(a)) => Some(a),
        _ => None,
    }
}

/// The strings of an all-string array, if it is one.
pub open spec fn str_elems(a: Seq<JsonV>) -> Option<Seq<Seq<char>>>
    decreases a.len(),
{
    if a.len() == 0 {
        Some(Seq::empty())
    } else {
        match a[0] {
            JsonV::Str(s) => match str_elems(a.drop_first()) {
                Some(t) => Some(seq![s] + t),
                None => None,
            },
            _ => None,
        }
    }
}

/// A missing member or a `null` reads as `None`; any other value must be a
/// string.  This mirrors how optional fields of the schemas are decoded.
pub open spec fn lookup_opt_str(o: Seq<(Seq<char>, JsonV)>, k: Seq<char>) -> Option<
    Option<Seq<char>>,
> {
    match lookup(o, k) {
        None => Some(None),
        Some(JsonV::Null) => Some(None),
        Some(JsonV::Str(s)) => Some(Some(s)),
        Some(_) => None,
    }
}

pub open spec fn lookup_opt_u64(o: Seq<(Seq<char>, JsonV)>, k: Seq<char>) -> Option<Option<u64>> {
    match lookup(o, k) {
        None => Some(None),
        Some(JsonV::Null) => Some(None),
        Some(JsonV::Num(n)) => Some(Some(n)),
        Some(_) => None,
    }
}

// Executable counterparts.  Each getter's result is exactly what the spec
// lookup says of the object's view.
pub fn obj_get<'a>(o: &'a Vec<(String, Json)>, k: &str) -> (r: Option<&'a Json>)
    ensures
        match r {
            Some(j) => lookup(jview_obj(o@), k@) == Some(jview(*j)),
            None => lookup(jview_obj(o@), k@) is None,
        },
{
    let ks = String::from_str(k);
    proof {
        assert(o@.skip(0) =~= o@);
    }
    let mut i: usize = 0;
    while i < o.len()
        invariant
            0 <= i <= o@.len(),
            ks@ == k@,
            lookup(jview_obj(o@), k@) == lookup(jview_obj(o@.skip(i as int)), k@),
        decreases o@.len() - i,
    {
        proof {
            lemma_jview_obj_len(o@.skip(i as int));
        }
        if o[i].0 == ks {
            proof {
                assert(jview_obj(o@.skip(i as int))[0] == (o@[i as int].0@, jview(o@[i as int].1)));
            }
            return Some(&o[i].1);
        }
        proof {
            assert(o@.skip(i as int).drop_first() =~= o@.skip(i + 1));
            assert(jview_obj(o@.skip(i as int))[0] == (o@[i as int].0@, jview(o@[i as int].1)));
            assert(jview_obj(o@.skip(i as int)).drop_first() =~= jview_obj(o@.skip(i + 1)));
        }
        i = i + 1;
    }
    proof {
        assert(o@.skip(i as int) =~= Seq::empty());
    }
    None
}

pub fn get_u64(o: &Vec<(String, Json)>, k: &str) -> (r: Option<u64>)
    ensures
        r == lookup_u64(jview_obj(o@), k@),
{
    match obj_get(o, k) {
        Some(Json::Num(n)) => Some(*n),
        _ => None,
    }
}

pub fn get_bool(o: &Vec<(String, Json)>, k: &str) -> (r: Option<bool>)
    ensures
        r == lookup_bool(jview_obj(o@), k@),
{
    match obj_get(o, k) {
        Some(Json::Bool(b)) => Some(*b),
        _ => None,
    }
}

pub fn get_string(o: &Vec<(String, Json)>, k: &str) -> (r: Option<String>)
    ensures
        match r {
            Some(s) => lookup_str(jview_obj(o@), k@) == Some(s@),
            None => lookup_str(jview_obj(o@), k@) is None,
        },
{
    match obj_get(o, k) {
        Some(Json::Str(s)) => Some(s.clone()),
        _ => None,
    }
}

pub fn get_obj<'a>(o: &'a Vec<(String, Json)>, k: &str) -> (r: Option<&'a Vec<(String, Json)>>)
    ensures
        match r {
            Some(m) => lookup_obj(jview_obj(o@), k@) == Some(jview_obj(m@)),
            None => lookup_obj(jview_obj(o@), k@) is None,
        },
{
    match obj_get(o, k) {
        Some(Json::Obj(m)) => Some(m),
        _ => None,
    }
}

#[verifier::loop_isolation(false)]
pub fn get_str_arr(o: &Vec<(String, Json)>, k: &str) -> (r: Option<Vec<String>>)
    ensures
        match r {
            Some(v) => match lookup_arr(jview_obj(o@), k@) {
                Some(a) => str_elems(a) == Some(v@.map_values(|s: String| s@)),
                None => false,
            },
            None => match lookup_arr(jview_obj(o@), k@) {
                Some(a) => str_elems(a) is None,
                None => true,
            },
        },
{
    match obj_get(o, k) {
        Some(Json::Arr(a)) => {
            proof {
                assert(lookup_arr(jview_obj(o@), k@) == Some(jview_arr(a@)));
                lemma_jview_arr_len(a@);
                assert(jview_arr(a@).skip(0) =~= jview_arr(a@));
                assert(Seq::<String>::empty().map_values(|s: String| s@) =~= Seq::<
                    Seq<char>,
                >::empty());
                if str_elems(jview_arr(a@)) is Some {
                    assert(Seq::<Seq<char>>::empty() + str_elems(jview_arr(a@)).unwrap()
                        =~= str_elems(jview_arr(a@)).unwrap());
                }
            }
            let mut out: Vec<String> = Vec::new();
            let mut i: usize = 0;
            while i < a.len()
                invariant
                    0 <= i <= a@.len(),
                    jview_arr(a@).len() == a@.len(),
                    forall|q: int|
                        0 <= q < a@.len() ==> #[trigger] jview_arr(a@)[q] == jview(a@[q]),
                    str_elems(jview_arr(a@)) matches Some(t) ==> (str_elems(
                        jview_arr(a@).skip(i as int),
                    ) matches Some(u) && t =~= out@.map_values(|s: String| s@) + u),
                    str_elems(jview_arr(a@)) is None ==> str_elems(
                        jview_arr(a@).skip(i as int),
                    ) is None,
                    out@.len() == i,
                decreases a@.len() - i,
            {
                let ghost pre = jview_arr(a@).skip(i as int);
                proof {
                    assert(pre.len() == a@.len() - i);
                    assert(pre[0] == jview_arr(a@)[i as int]);
                    assert(pre.drop_first() =~= jview_arr(a@).skip(i + 1));
                }
                match &a[i] {
                    Json::Str(s) => {
                        out.push(s.clone());
                        proof {
                            assert(out@.map_values(|s: String| s@) =~= out@.subrange(
                                0,
                                out@.len() - 1,
                            ).map_values(|s: String| s@).push(s@));
                        }
                    },
                    _ => {
                        proof {
                            assert(str_elems(pre) is None);
                            if str_elems(jview_arr(a@)) is Some {
                                assert(str_elems(jview_arr(a@).skip(i as int)) is Some);
                                assert(false);
                            }
                        }
                        return None;
                    },
                }
                i = i + 1;
            }
            proof {
                assert(jview_arr(a@).skip(i as int) =~= Seq::empty());
                assert(str_elems(Seq::<JsonV>::empty()) == Some(Seq::<Seq<char>>::empty()));
                if str_elems(jview_arr(a@)) is Some {
                    assert(out@.map_values(|s: String| s@) + Seq::<Seq<char>>::empty()
                        =~= out@.map_values(|s: String| s@));
                    assert(str_elems(jview_arr(a@)).unwrap() =~= out@.map_values(
                        |s: String| s@,
                    ));
                }
            }
            Some(out)
        },
        _ => None,
    }
}

pub fn get_opt_string(o: &Vec<(String, Json)>, k: &str) -> (r: Option<Option<String>>)
    ensures
        match r {
            Some(Some(s)) => lookup_opt_str(jview_obj(o@), k@) == Some(Some(s@)),
            Some(None) => lookup_opt_str(jview_obj(o@), k@) == Some(None::<Seq<char>>),
            None => lookup_opt_str(jview_obj(o@), k@) is None,
        },
{
    match obj_get(o, k) {
        None => Some(None),
        Some(Json::Null) => Some(None),
        Some(Json::Str(s)) => Some(Some(s.clone())),
        Some(_) => None,
    }
}

pub fn get_opt_u64(o: &Vec<(String, Json)>, k: &str) -> (r: Option<Option<u64>>)
    ensures
        r == lookup_opt_u64(jview_obj(o@), k@),
{
    match obj_get(o, k) {
        None => Some(None),
        Some(Json::Null) => Some(None),
        Some(Json::Num(n)) => Some(Some(*n)),
        Some(_) => None,
    }
}


// ---------------------------------------------------------------------------
// Serialization
// ---------------------------------------------------------------------------
/// The decimal digit character for `d`, which must be below ten.
pub open spec fn digit_char_s(d: u64) -> char {
    if d == 0 { '0' } else if d == 1 { '1' } else if d == 2 { '2' } else if d == 3 { '3' }
    else if d == 4 { '4' } else if d == 5 { '5' } else if d == 6 { '6' } else if d == 7 { '7' }
    else if d == 8 { '8' } else { '9' }
}

/// The decimal digits of `n`, most significant first.
pub open spec fn spec_dec_digits(n: u64) -> Seq<char>
    decreases n,
{
    if n < 10 { seq![digit_char_s(n)] } else { spec_dec_digits(n / 10).push(digit_char_s(n % 10)) }
}

/// How one character is written inside a JSON string literal.
pub open spec fn esc_char(c: char) -> Seq<char> {
    if c == '"' { seq!['\\', '"'] }
    else if c == '\\' { seq!['\\', '\\'] }
    else if c == '\n' { seq!['\\', 'n'] }
    else if c == '\t' { seq!['\\', 't'] }
    else if c == '\r' { seq!['\\', 'r'] }
    else if c == '\u{8}' { seq!['\\', 'b'] }
    else if c == '\u{c}' { seq!['\\', 'f'] }
    else { seq![c] }
}

pub open spec fn spec_esc(s: Seq<char>) -> Seq<char>
    decreases s.len(),
{
    if s.len() == 0 { Seq::empty() } else { esc_char(s[0]) + spec_esc(s.drop_first()) }
}

/// The JSON text of a value: minimal escapes, no added whitespace.
pub open spec fn spec_ser(j: JsonV) -> Seq<char>
    decreases j, 1int,
{
    match j {
        JsonV::Null => seq!['n', 'u', 'l', 'l'],
        JsonV::Bool(b) => if b { seq!['t', 'r', 'u', 'e'] } else { seq!['f', 'a', 'l', 's', 'e'] },
        JsonV::Num(n) => spec_dec_digits(n),
        JsonV::Str(s) => seq!['"'] + spec_esc(s) + seq!['"'],
        JsonV::Arr(a) => seq!['['] + spec_ser_arr(a) + seq![']'],
        JsonV::Obj(o) => seq!['{'] + spec_ser_obj(o) + seq!['}'],
    }
}

pub open spec fn spec_ser_arr(a: Seq<JsonV>) -> Seq<char>
    decreases a, 0int,
{
    if a.len() == 0 { Seq::empty() }
    else if a.len() == 1 { spec_ser(a[0]) }
    else { spec_ser(a[0]) + seq![','] + spec_ser_arr(a.drop_first()) }
}

pub open spec fn spec_ser_obj(o: Seq<(Seq<char>, JsonV)>) -> Seq<char>
    decreases o, 0int,
{
    if o.len() == 0 { Seq::empty() }
    else {
        let m = seq!['"'] + spec_esc(o[0].0) + seq!['"', ':'] + spec_ser(o[0].1);
        if o.len() == 1 { m } else { m + seq![','] + spec_ser_obj(o.drop_first()) }
    }
}

fn digit_char(d: u64) -> (c: char)
    requires d < 10,
    ensures c == digit_char_s(d),
{
    if d == 0 { '0' } else if d == 1 { '1' } else if d == 2 { '2' } else if d == 3 { '3' }
    else if d == 4 { '4' } else if d == 5 { '5' } else if d == 6 { '6' } else if d == 7 { '7' }
    else if d == 8 { '8' } else { '9' }
}

fn dec_digits_into(n: u64, out: &mut Vec<char>)
    ensures final(out)@ == old(out)@ + spec_dec_digits(n),
    decreases n,
{
    if n < 10 {
        out.push(digit_char(n));
        proof { assert(out@ =~= old(out)@ + spec_dec_digits(n)); }
    } else {
        dec_digits_into(n / 10, out);
        out.push(digit_char(n % 10));
        proof { assert(out@ =~= old(out)@ + spec_dec_digits(n)); }
    }
}

fn esc_char_into(c: char, out: &mut Vec<char>)
    ensures final(out)@ == old(out)@ + esc_char(c),
{
    if c == '"' { out.push('\\'); out.push('"'); }
    else if c == '\\' { out.push('\\'); out.push('\\'); }
    else if c == '\n' { out.push('\\'); out.push('n'); }
    else if c == '\t' { out.push('\\'); out.push('t'); }
    else if c == '\r' { out.push('\\'); out.push('r'); }
    else if c == '\u{8}' { out.push('\\'); out.push('b'); }
    else if c == '\u{c}' { out.push('\\'); out.push('f'); }
    else { out.push(c); }
    proof { assert(out@ =~= old(out)@ + esc_char(c)); }
}

fn esc_into(s: &str, i: usize, out: &mut Vec<char>)
    requires i <= s@.len(),
    ensures final(out)@ == old(out)@ + spec_esc(s@.skip(i as int)),
    decreases s@.len() - i,
{
    if i == s.unicode_len() {
        proof {
            assert(s@.skip(i as int) =~= Seq::<char>::empty());
            assert(out@ =~= old(out)@ + spec_esc(s@.skip(i as int)));
        }
    } else {
        let c = s.get_char(i);
        esc_char_into(c, out);
        esc_into(s, i + 1, out);
        proof {
            assert(s@.skip(i as int)[0] == c);
            assert(s@.skip(i as int).drop_first() =~= s@.skip(i + 1));
            assert(out@ =~= old(out)@ + spec_esc(s@.skip(i as int)));
        }
    }
}

fn ser_into(j: &Json, out: &mut Vec<char>)
    ensures final(out)@ == old(out)@ + spec_ser(jview(*j)),
    decreases *j, 1int,
{
    match j {
        Json::Null => {
            out.push('n'); out.push('u'); out.push('l'); out.push('l');
            proof { assert(out@ =~= old(out)@ + spec_ser(jview(*j))); }
        },
        Json::Bool(b) => {
            if *b { out.push('t'); out.push('r'); out.push('u'); out.push('e'); }
            else { out.push('f'); out.push('a'); out.push('l'); out.push('s'); out.push('e'); }
            proof { assert(out@ =~= old(out)@ + spec_ser(jview(*j))); }
        },
        Json::Num(n) => {
            dec_digits_into(*n, out);
        },
        Json::Str(s) => {
            out.push('"');
            esc_into(s.as_str(), 0, out);
            out.push('"');
            proof {
                assert(s@.skip(0) =~= s@);
                assert(out@ =~= old(out)@ + spec_ser(jview(*j)));
            }
        },
        Json::Arr(v) => {
            out.push('[');
            ser_arr_into(v, 0, out);
            out.push(']');
            proof {
                assert(v@.skip(0) =~= v@);
                assert(out@ =~= old(out)@ + spec_ser(jview(*j)));
            }
        },
        Json::Obj(v) => {
            out.push('{');
            ser_obj_into(v, 0, out);
            out.push('}');
            proof {
                assert(v@.skip(0) =~= v@);
                assert(out@ =~= old(out)@ + spec_ser(jview(*j)));
            }
        },
    }
}

fn ser_arr_into(v: &Vec<Json>, i: usize, out: &mut Vec<char>)
    requires i <= v@.len(),
    ensures final(out)@ == old(out)@ + spec_ser_arr(jview_arr(v@.skip(i as int))),
    decreases *v, 0int, v@.len() - i,
{
    proof { lemma_jview_arr_len(v@.skip(i as int)); }
    if i == v.len() {
        proof {
            assert(v@.skip(i as int) =~= Seq::<Json>::empty());
            assert(out@ =~= old(out)@ + spec_ser_arr(jview_arr(v@.skip(i as int))));
        }
    } else {
        ser_into(&v[i], out);
        proof {
            assert(v@.skip(i as int)[0] == v@[i as int]);
            assert(v@.skip(i as int).drop_first() =~= v@.skip(i + 1));
            assert(jview_arr(v@.skip(i as int)).drop_first() =~= jview_arr(v@.skip(i + 1)));
            assert(jview_arr(v@.skip(i as int))[0] == jview(v@[i as int]));
        }
        if i + 1 < v.len() {
            out.push(',');
            ser_arr_into(v, i + 1, out);
        }
        proof {
            if i + 1 == v.len() {
                assert(jview_arr(v@.skip(i as int)).len() == 1);
            }
            assert(out@ =~= old(out)@ + spec_ser_arr(jview_arr(v@.skip(i as int))));
        }
    }
}

fn ser_obj_into(v: &Vec<(String, Json)>, i: usize, out: &mut Vec<char>)
    requires i <= v@.len(),
    ensures final(out)@ == old(out)@ + spec_ser_obj(jview_obj(v@.skip(i as int))),
    decreases *v, 0int, v@.len() - i,
{
    proof { lemma_jview_obj_len(v@.skip(i as int)); }
    if i == v.len() {
        proof {
            assert(v@.skip(i as int) =~= Seq::<(String, Json)>::empty());
            assert(out@ =~= old(out)@ + spec_ser_obj(jview_obj(v@.skip(i as int))));
        }
    } else {
        out.push('"');
        esc_into(v[i].0.as_str(), 0, out);
        out.push('"');
        out.push(':');
        ser_into(&v[i].1, out);
        proof {
            assert(v@[i as int].0@.skip(0) =~= v@[i as int].0@);
            assert(v@.skip(i as int)[0] == v@[i as int]);
            assert(v@.skip(i as int).drop_first() =~= v@.skip(i + 1));
            assert(jview_obj(v@.skip(i as int)).drop_first() =~= jview_obj(v@.skip(i + 1)));
            assert(jview_obj(v@.skip(i as int))[0] == (v@[i as int].0@, jview(v@[i as int].1)));
        }
        if i + 1 < v.len() {
            out.push(',');
            ser_obj_into(v, i + 1, out);
        }
        proof {
            if i + 1 == v.len() {
                assert(jview_obj(v@.skip(i as int)).len() == 1);
            }
            assert(out@ =~= old(out)@ + spec_ser_obj(jview_obj(v@.skip(i as int))));
        }
    }
}

/// Relies on `Iterator::collect` building a `String` from `char` items:
/// the collected string holds exactly the iterated characters, in order.
#[verifier::external_body]
fn chars_to_string(v: &Vec<char>) -> (r: String)
    ensures r@ == v@,
{
    v.iter().collect()
}

/// The JSON text of a value.
pub fn to_json_text(j: &Json) -> (r: String)
    ensures r@ == spec_ser(j@),
{
    let mut out: Vec<char> = Vec::new();
    ser_into(j, &mut out);
    proof { assert(Seq::<char>::empty() + spec_ser(jview(*j)) =~= spec_ser(jview(*j))); }
    chars_to_string(&out)
}


// ---------------------------------------------------------------------------
// Parsing
// ---------------------------------------------------------------------------
pub open spec fn is_ws(c: char) -> bool {
    c == ' ' || c == '\n' || c == '\r' || c == '\t'
}

/// How many whitespace characters stand at `i`.
pub open spec fn ws_count(s: Seq<char>, i: int) -> nat
    decreases s.len() - i,
{
    if i < 0 || i >= s.len() || !is_ws(s[i]) { 0 } else { (1 + ws_count(s, i + 1)) as nat }
}

/// The first non-whitespace position at or after `i`.
pub open spec fn ws_end(s: Seq<char>, i: int) -> int {
    i + ws_count(s, i)
}

pub open spec fn is_digit(c: char) -> bool {
    48 <= c as u32 <= 57
}

pub open spec fn digit_val(c: char) -> u64 {
    ((c as u32) - 48) as u64
}

pub open spec fn digit_count(s: Seq<char>, i: int) -> nat
    decreases s.len() - i,
{
    if i < 0 || i >= s.len() || !is_digit(s[i]) { 0 } else { (1 + digit_count(s, i + 1)) as nat }
}

/// The number written by the digits of `s` from `i` up to `j`.
pub open spec fn num_val(s: Seq<char>, i: int, j: int) -> int
    decreases j - i,
{
    if j <= i { 0 } else { num_val(s, i, j - 1) * 10 + digit_val(s[j - 1]) }
}

/// A number at `i`: a run of decimal digits whose value fits in a `u64`.
pub open spec fn parse_num(s: Seq<char>, i: int) -> Option<(u64, int)> {
    let n = digit_count(s, i);
    if n == 0 { None }
    else if num_val(s, i, i + n) > u64::MAX { None }
    else { Some((num_val(s, i, i + n) as u64, i + n)) }
}

/// How one escape letter reads after a backslash.
pub open spec fn unesc(c: char) -> Option<char> {
    if c == '"' { Some('"') }
    else if c == '\\' { Some('\\') }
    else if c == '/' { Some('/') }
    else if c == 'n' { Some('\n') }
    else if c == 't' { Some('\t') }
    else if c == 'r' { Some('\r') }
    else if c == 'b' { Some('\u{8}') }
    else if c == 'f' { Some('\u{c}') }
    else { None }
}

/// The body of a string literal, read from just after the opening quote up
/// to and past the closing quote.  Raw control characters and unicode
/// escapes are rejected.
pub open spec fn parse_str_body(s: Seq<char>, i: int) -> Option<(Seq<char>, int)>
    decreases s.len() - i,
{
    if i < 0 || i >= s.len() { None }
    else if s[i] == '"' { Some((Seq::empty(), i + 1)) }
    else if s[i] == '\\' {
        if i + 1 >= s.len() { None }
        else {
            match unesc(s[i + 1]) {
                Some(c) => match parse_str_body(s, i + 2) {
                    Some((t, r)) => Some((seq![c] + t, r)),
                    None => None,
                },
                None => None,
            }
        }
    } else if (s[i] as u32) < 32 { None }
    else {
        match parse_str_body(s, i + 1) {
            Some((t, r)) => Some((seq![s[i]] + t, r)),
            None => None,
        }
    }
}

/// A whole string literal at `i`, opening quote included.
pub open spec fn parse_str_at(s: Seq<char>, i: int) -> Option<(Seq<char>, int)> {
    if 0 <= i < s.len() && s[i] == '"' { parse_str_body(s, i + 1) } else { None }
}

/// A JSON value at `i`, leading whitespace allowed.
pub open spec fn parse_value(s: Seq<char>, i: int) -> Option<(JsonV, int)>
    decreases s.len() - i, 0int,
{
    let j = ws_end(s, i);
    if j >= s.len() {
        None
    } else {
        let c = s[j];
        if c == '{' {
            let k = ws_end(s, j + 1);
            if k < s.len() && s[k] == '}' { Some((JsonV::Obj(Seq::empty()), k + 1)) }
            else {
                match parse_membs(s, j + 1) {
                    Some((o, r)) => Some((JsonV::Obj(o), r)),
                    None => None,
                }
            }
        } else if c == '[' {
            let k = ws_end(s, j + 1);
            if k < s.len() && s[k] == ']' { Some((JsonV::Arr(Seq::empty()), k + 1)) }
            else {
                match parse_elems(s, j + 1) {
                    Some((a, r)) => Some((JsonV::Arr(a), r)),
                    None => None,
                }
            }
        } else if c == '"' {
            match parse_str_body(s, j + 1) {
                Some((t, r)) => Some((JsonV::Str(t), r)),
                None => None,
            }
        } else if c == 't' {
            if s.len() - j >= 4 && s[j + 1] == 'r' && s[j + 2] == 'u' && s[j + 3] == 'e' {
                Some((JsonV::Bool(true), j + 4))
            } else { None }
        } else if c == 'f' {
            if j + 5 <= s.len() && s[j + 1] == 'a' && s[j + 2] == 'l' && s[j + 3] == 's' && s[j + 4] == 'e' {
                Some((JsonV::Bool(false), j + 5))
            } else { None }
        } else if c == 'n' {
            if s.len() - j >= 4 && s[j + 1] == 'u' && s[j + 2] == 'l' && s[j + 3] == 'l' {
                Some((JsonV::Null, j + 4))
            } else { None }
        } else if is_digit(c) {
            match parse_num(s, j) {
                Some((v, r)) => Some((JsonV::Num(v), r)),
                None => None,
            }
        } else {
            None
        }
    }
}

/// The elements of a non-empty array, read from just after `[` or `,`,
/// up to and past the closing `]`.
pub open spec fn parse_elems(s: Seq<char>, i: int) -> Option<(Seq<JsonV>, int)>
    decreases s.len() - i, 1int,
{
    match parse_value(s, i) {
        Some((v, r)) => {
            if r <= i { None }
            else {
                let j = ws_end(s, r);
                if j < s.len() && s[j] == ']' { Some((seq![v], j + 1)) }
                else if j < s.len() && s[j] == ',' {
                    match parse_elems(s, j + 1) {
                        Some((a, r2)) => Some((seq![v] + a, r2)),
                        None => None,
                    }
                } else { None }
            }
        },
        None => None,
    }
}

/// The members of a non-empty object, read from just after `{` or `,`,
/// up to and past the closing `}`.
pub open spec fn parse_membs(s: Seq<char>, i: int) -> Option<(Seq<(Seq<char>, JsonV)>, int)>
    decreases s.len() - i, 1int,
{
    let j = ws_end(s, i);
    if j >= s.len() { None }
    else {
        match parse_str_at(s, j) {
            Some((k, r1)) => {
                if r1 <= i { None }
                else {
                    let j1 = ws_end(s, r1);
                    if j1 >= s.len() || s[j1] != ':' { None }
                    else {
                        match parse_value(s, j1 + 1) {
                            Some((v, r2)) => {
                                if r2 <= i { None }
                                else {
                                    let j2 = ws_end(s, r2);
                                    if j2 < s.len() && s[j2] == '}' { Some((seq![(k, v)], j2 + 1)) }
                                    else if j2 < s.len() && s[j2] == ',' {
                                        match parse_membs(s, j2 + 1) {
                                            Some((o, r3)) => Some((seq![(k, v)] + o, r3)),
                                            None => None,
                                        }
                                    } else { None }
                                }
                            },
                            None => None,
                        }
                    }
                }
            },
            None => None,
        }
    }
}

/// The value of a complete JSON text: one value with nothing but
/// whitespace around it.
pub open spec fn spec_parse(s: Seq<char>) -> Option<JsonV> {
    match parse_value(s, 0) {
        Some((v, r)) => if ws_end(s, r) == s.len() { Some(v) } else { None },
        None => None,
    }
}


proof fn lemma_digit_count_exact(s: Seq<char>, i: int, j: int)
    requires
        0 <= i <= j <= s.len(),
        forall|q: int| i <= q < j ==> is_digit(#[trigger] s[q]),
        j == s.len() || !is_digit(s[j]),
    ensures
        digit_count(s, i) == j - i,
    decreases j - i,
{
    if i < j {
        lemma_digit_count_exact(s, i + 1, j);
    }
}

proof fn lemma_num_val_mono(s: Seq<char>, i: int, j1: int, j2: int)
    requires
        i <= j1 <= j2,
    ensures
        0 <= num_val(s, i, j1) <= num_val(s, i, j2),
    decreases j2 - j1,
{
    if j1 == j2 {
        lemma_num_val_nonneg(s, i, j1);
    } else {
        lemma_num_val_mono(s, i, j1, j2 - 1);
    }
}

proof fn lemma_num_val_nonneg(s: Seq<char>, i: int, j: int)
    ensures
        num_val(s, i, j) >= 0,
    decreases j - i,
{
    if j > i {
        lemma_num_val_nonneg(s, i, j - 1);
    }
}

fn skip_ws(s: &Vec<char>, i: usize) -> (r: usize)
    requires
        i <= s@.len(),
    ensures
        r as int == ws_end(s@, i as int),
        i <= r <= s@.len(),
    decreases s@.len() - i,
{
    if i < s.len() {
        let c = s[i];
        if c == ' ' || c == '\n' || c == '\r' || c == '\t' {
            return skip_ws(s, i + 1);
        }
    }
    i
}

fn unesc_x(c: char) -> (r: Option<char>)
    ensures
        r == unesc(c),
{
    if c == '"' { Some('"') }
    else if c == '\\' { Some('\\') }
    else if c == '/' { Some('/') }
    else if c == 'n' { Some('\n') }
    else if c == 't' { Some('\t') }
    else if c == 'r' { Some('\r') }
    else if c == 'b' { Some('\u{8}') }
    else if c == 'f' { Some('\u{c}') }
    else { None }
}

#[verifier::loop_isolation(false)]
fn parse_num_at(s: &Vec<char>, i: usize) -> (r: Option<(u64, usize)>)
    requires
        i <= s@.len(),
    ensures
        match r {
            Some((v, n)) => parse_num(s@, i as int) == Some((v, n as int)) && i < n <= s@.len(),
            None => parse_num(s@, i as int) is None,
        },
{
    if i == s.len() || (s[i] as u32) < 48 || (s[i] as u32) > 57 {
        proof {
            if i < s@.len() {
                assert(!is_digit(s@[i as int]));
            }
            assert(digit_count(s@, i as int) == 0);
        }
        return None;
    }
    let mut j: usize = i;
    let mut acc: u64 = 0;
    while j < s.len() && (s[j] as u32) >= 48 && (s[j] as u32) <= 57
        invariant
            i <= j <= s@.len(),
            forall|q: int| i <= q < j ==> is_digit(#[trigger] s@[q]),
            acc as int == num_val(s@, i as int, j as int),
        decreases s@.len() - j,
    {
        let d: u64 = (s[j] as u32 - 48) as u64;
        proof {
            assert(is_digit(s@[j as int]));
            assert(d == digit_val(s@[j as int]));
            assert(d <= 9);
        }
        if acc > u64::MAX / 10 || (acc == u64::MAX / 10 && d > u64::MAX % 10) {
            proof {
                assert(acc as int * 10 + d > u64::MAX);
                assert(num_val(s@, i as int, j + 1) > u64::MAX);
                let n = digit_count(s@, i as int) as int;
                lemma_digit_count_ge(s@, i as int, j + 1);
                lemma_num_val_mono(s@, i as int, j + 1, i + n);
                assert(parse_num(s@, i as int) is None);
            }
            return None;
        }
        acc = acc * 10 + d;
        j = j + 1;
    }
    proof {
        lemma_digit_count_exact(s@, i as int, j as int);
        assert(parse_num(s@, i as int) == Some((acc, j as int)));
    }
    Some((acc, j))
}

/// Every position of a digit run is counted: if all of `[i, j)` are digits,
/// the run at `i` is at least that long.
proof fn lemma_digit_count_ge(s: Seq<char>, i: int, j: int)
    requires
        0 <= i <= j <= s.len(),
        forall|q: int| i <= q < j ==> is_digit(#[trigger] s[q]),
    ensures
        digit_count(s, i) >= j - i,
    decreases j - i,
{
    if i < j {
        lemma_digit_count_ge(s, i + 1, j);
    }
}

fn parse_str_body_x(s: &Vec<char>, i: usize) -> (r: Option<(Vec<char>, usize)>)
    requires
        i <= s@.len(),
    ensures
        match r {
            Some((t, n)) => parse_str_body(s@, i as int) == Some((t@, n as int)) && i < n <= s@.len(),
            None => parse_str_body(s@, i as int) is None,
        },
    decreases s@.len() - i,
{
    if i >= s.len() {
        return None;
    }
    let c = s[i];
    if c == '"' {
        let t: Vec<char> = Vec::new();
        proof {
            assert(t@ =~= Seq::<char>::empty());
        }
        Some((t, i + 1))
    } else if c == '\\' {
        if i + 1 >= s.len() {
            return None;
        }
        match unesc_x(s[i + 1]) {
            Some(u) => match parse_str_body_x(s, i + 2) {
                Some((t, n)) => {
                    let mut t2 = t;
                    t2.insert(0, u);
                    proof {
                        assert(t2@ =~= seq![u] + t2@.drop_first());
                    }
                    Some((t2, n))
                },
                None => None,
            },
            None => None,
        }
    } else if (c as u32) < 32 {
        None
    } else {
        match parse_str_body_x(s, i + 1) {
            Some((t, n)) => {
                let mut t2 = t;
                t2.insert(0, c);
                proof {
                    assert(t2@ =~= seq![c] + t2@.drop_first());
                }
                Some((t2, n))
            },
            None => None,
        }
    }
}

fn parse_value_x(s: &Vec<char>, i: usize) -> (r: Option<(Json, usize)>)
    requires
        i <= s@.len(),
    ensures
        match r {
            Some((j, n)) => parse_value(s@, i as int) == Some((j@, n as int)) && i <= n <= s@.len(),
            None => parse_value(s@, i as int) is None,
        },
    decreases s@.len() - i, 0int,
{
    let j = skip_ws(s, i);
    if j >= s.len() {
        return None;
    }
    let c = s[j];
    if c == '{' {
        let k = skip_ws(s, j + 1);
        if k < s.len() && s[k] == '}' {
            let o: Vec<(String, Json)> = Vec::new();
            proof {
                assert(jview_obj(o@) =~= Seq::<(Seq<char>, JsonV)>::empty());
            }
            Some((Json::Obj(o), k + 1))
        } else {
            match parse_membs_x(s, j + 1) {
                Some((o, n)) => Some((Json::Obj(o), n)),
                None => None,
            }
        }
    } else if c == '[' {
        let k = skip_ws(s, j + 1);
        if k < s.len() && s[k] == ']' {
            let a: Vec<Json> = Vec::new();
            proof {
                assert(jview_arr(a@) =~= Seq::<JsonV>::empty());
            }
            Some((Json::Arr(a), k + 1))
        } else {
            match parse_elems_x(s, j + 1) {
                Some((a, n)) => Some((Json::Arr(a), n)),
                None => None,
            }
        }
    } else if c == '"' {
        match parse_str_body_x(s, j + 1) {
            Some((t, n)) => Some((Json::Str(chars_to_string(&t)), n)),
            None => None,
        }
    } else if c == 't' {
        if s.len() - j >= 4 && s[j + 1] == 'r' && s[j + 2] == 'u' && s[j + 3] == 'e' {
            Some((Json::Bool(true), j + 4))
        } else {
            None
        }
    } else if c == 'f' {
        if s.len() - j >= 5 && s[j + 1] == 'a' && s[j + 2] == 'l' && s[j + 3] == 's'
            && s[j + 4] == 'e' {
            Some((Json::Bool(false), j + 5))
        } else {
            None
        }
    } else if c == 'n' {
        if s.len() - j >= 4 && s[j + 1] == 'u' && s[j + 2] == 'l' && s[j + 3] == 'l' {
            Some((Json::Null, j + 4))
        } else {
            None
        }
    } else if (c as u32) >= 48 && (c as u32) <= 57 {
        match parse_num_at(s, j) {
            Some((v, n)) => Some((Json::Num(v), n)),
            None => None,
        }
    } else {
        proof {
            assert(!is_digit(s@[j as int]));
        }
        None
    }
}

fn parse_elems_x(s: &Vec<char>, i: usize) -> (r: Option<(Vec<Json>, usize)>)
    requires
        i <= s@.len(),
    ensures
        match r {
            Some((a, n)) => parse_elems(s@, i as int) == Some((jview_arr(a@), n as int)) && i
                <= n <= s@.len(),
            None => parse_elems(s@, i as int) is None,
        },
    decreases s@.len() - i, 1int,
{
    match parse_value_x(s, i) {
        Some((v, r1)) => {
            if r1 <= i {
                return None;
            }
            let j = skip_ws(s, r1);
            if j < s.len() && s[j] == ']' {
                let mut a: Vec<Json> = Vec::new();
                a.push(v);
                proof {
                    assert(jview_arr(a@.drop_first()) =~= Seq::<JsonV>::empty());
                    assert(jview_arr(a@) =~= seq![a@[0]@]);
                }
                Some((a, j + 1))
            } else if j < s.len() && s[j] == ',' {
                match parse_elems_x(s, j + 1) {
                    Some((a, n)) => {
                        let ghost va = a@;
                        let mut a2 = a;
                        a2.insert(0, v);
                        proof {
                            assert(a2@.drop_first() =~= va);
                            assert(jview_arr(a2@) =~= seq![a2@[0]@] + jview_arr(va));
                        }
                        Some((a2, n))
                    },
                    None => None,
                }
            } else {
                None
            }
        },
        None => None,
    }
}

fn parse_membs_x(s: &Vec<char>, i: usize) -> (r: Option<(Vec<(String, Json)>, usize)>)
    requires
        i <= s@.len(),
    ensures
        match r {
            Some((o, n)) => parse_membs(s@, i as int) == Some((jview_obj(o@), n as int)) && i
                <= n <= s@.len(),
            None => parse_membs(s@, i as int) is None,
        },
    decreases s@.len() - i, 1int,
{
    let j = skip_ws(s, i);
    if j >= s.len() {
        return None;
    }
    if !(s[j] == '"') {
        return None;
    }
    match parse_str_body_x(s, j + 1) {
        Some((kt, r1)) => {
            let key = chars_to_string(&kt);
            if r1 <= i {
                return None;
            }
            let j1 = skip_ws(s, r1);
            if j1 >= s.len() || !(s[j1] == ':') {
                return None;
            }
            match parse_value_x(s, j1 + 1) {
                Some((v, r2)) => {
                    if r2 <= i {
                        return None;
                    }
                    let j2 = skip_ws(s, r2);
                    if j2 < s.len() && s[j2] == '}' {
                        let mut o: Vec<(String, Json)> = Vec::new();
                        o.push((key, v));
                        proof {
                            assert(jview_obj(o@.drop_first()) =~= Seq::<(Seq<char>, JsonV)>::empty());
                            assert(jview_obj(o@) =~= seq![(o@[0].0@, o@[0].1@)]);
                        }
                        Some((o, j2 + 1))
                    } else if j2 < s.len() && s[j2] == ',' {
                        match parse_membs_x(s, j2 + 1) {
                            Some((o, n)) => {
                                let ghost vo = o@;
                                let mut o2 = o;
                                o2.insert(0, (key, v));
                                proof {
                                    assert(o2@.drop_first() =~= vo);
                                    assert(jview_obj(o2@) =~= seq![(o2@[0].0@, o2@[0].1@)]
                                        + jview_obj(vo));
                                }
                                Some((o2, n))
                            },
                            None => None,
                        }
                    } else {
                        None
                    }
                },
                None => None,
            }
        },
        None => None,
    }
}

fn str_to_chars(s: &str) -> (r: Vec<char>)
    ensures
        r@ == s@,
{
    let n = s.unicode_len();
    let mut v: Vec<char> = Vec::new();
    let mut i: usize = 0;
    while i < n
        invariant
            i <= n,
            n == s@.len(),
            v@ == s@.subrange(0, i as int),
        decreases n - i,
    {
        v.push(s.get_char(i));
        proof {
            assert(v@ =~= s@.subrange(0, i + 1));
        }
        i = i + 1;
    }
    proof {
        assert(s@.subrange(0, i as int) =~= s@);
    }
    v
}

/// The JSON value of a complete text, exactly as `spec_parse` reads it.
pub fn parse_json_text(s: &str) -> (r: Option<Json>)
    ensures
        match r {
            Some(j) => spec_parse(s@) == Some(j@),
            None => spec_parse(s@) is None,
        },
{
    let cs = str_to_chars(s);
    match parse_value_x(&cs, 0) {
        Some((j, n)) => {
            let e = skip_ws(&cs, n);
            if e == cs.len() {
                Some(j)
            } else {
                None
            }
        },
        None => None,
    }
}


// ---------------------------------------------------------------------------
// Arrays of strings, as the schemas use them
// ---------------------------------------------------------------------------
/// The JSON array elements that write the given strings.
pub open spec fn strs_to_json(s: Seq<Seq<char>>) -> Seq<JsonV>
    decreases s.len(),
{
    if s.len() == 0 {
        Seq::empty()
    } else {
        seq![JsonV::Str(s[0])] + strs_to_json(s.drop_first())
    }
}

/// Reading back an array of written strings gives the strings.
pub proof fn lemma_strs_roundtrip(s: Seq<Seq<char>>)
    ensures
        str_elems(strs_to_json(s)) == Some(s),
    decreases s.len(),
{
    if s.len() == 0 {
        assert(str_elems(strs_to_json(s)) == Some(Seq::<Seq<char>>::empty()));
        assert(s =~= Seq::<Seq<char>>::empty());
    } else {
        lemma_strs_roundtrip(s.drop_first());
        assert(strs_to_json(s).drop_first() =~= strs_to_json(s.drop_first()));
        assert(strs_to_json(s)[0] == JsonV::Str(s[0]));
        assert(seq![s[0]] + s.drop_first() =~= s);
    }
}

fn encode_strs_from(v: &Vec<String>, i: usize) -> (r: Vec<Json>)
    requires
        i <= v@.len(),
    ensures
        jview_arr(r@) == strs_to_json(v@.map_values(|s: String| s@).skip(i as int)),
    decreases v@.len() - i,
{
    let ghost m = v@.map_values(|s: String| s@);
    if i == v.len() {
        let r: Vec<Json> = Vec::new();
        proof {
            assert(m.skip(i as int) =~= Seq::<Seq<char>>::empty());
            assert(jview_arr(r@) =~= strs_to_json(m.skip(i as int)));
        }
        r
    } else {
        let rest = encode_strs_from(v, i + 1);
        let ghost vrest = rest@;
        let mut r = rest;
        r.insert(0, Json::Str(v[i].clone()));
        proof {
            assert(r@.drop_first() =~= vrest);
            assert(jview_arr(r@) =~= seq![jview(r@[0])] + jview_arr(vrest));
            assert(m.skip(i as int)[0] == m[i as int]);
            assert(m[i as int] == v@[i as int]@);
            assert(m.skip(i as int).drop_first() =~= m.skip(i + 1));
            assert(jview_arr(r@) =~= strs_to_json(m.skip(i as int)));
        }
        r
    }
}

/// The JSON array that writes the given strings.
pub fn encode_strs(v: &Vec<String>) -> (r: Vec<Json>)
    ensures
        jview_arr(r@) == strs_to_json(v@.map_values(|s: String| s@)),
{
    let r = encode_strs_from(v, 0);
    proof {
        assert(v@.map_values(|s: String| s@).skip(0) =~= v@.map_values(|s: String| s@));
    }
    r
}


/// An optional count writes as a number or as `null`.
pub open spec fn opt_u64_to_json(o: Option<u64>) -> JsonV {
    match o {
        Some(n) => JsonV::Num(n),
        None => JsonV::Null,
    }
}

/// An optional string writes as a string or as `null`.
pub open spec fn opt_str_to_json(o: Option<Seq<char>>) -> JsonV {
    match o {
        Some(s) => JsonV::Str(s),
        None => JsonV::Null,
    }
}

pub open spec fn opt_string_view(o: Option<String>) -> Option<Seq<char>> {
    match o {
        Some(s) => Some(s@),
        None => None,
    }
}


// ---------------------------------------------------------------------------
// The serializer's number text parses back to the number it wrote
// ---------------------------------------------------------------------------
proof fn lemma_digit_char_val(d: u64)
    requires
        d < 10,
    ensures
        is_digit(digit_char_s(d)),
        digit_val(digit_char_s(d)) == d,
{
}

proof fn lemma_dec_digits_shape(n: u64)
    ensures
        spec_dec_digits(n).len() >= 1,
        forall|q: int|
            0 <= q < spec_dec_digits(n).len() ==> is_digit(#[trigger] spec_dec_digits(n)[q]),
    decreases n,
{
    if n < 10 {
        lemma_digit_char_val(n);
    } else {
        lemma_dec_digits_shape(n / 10);
        lemma_digit_char_val(n % 10);
    }
}

proof fn lemma_num_val_of_dec(n: u64, s: Seq<char>, i: int)
    requires
        0 <= i,
        i + spec_dec_digits(n).len() <= s.len(),
        s.subrange(i, i + spec_dec_digits(n).len()) == spec_dec_digits(n),
    ensures
        num_val(s, i, i + spec_dec_digits(n).len()) == n,
    decreases n,
{
    let d = spec_dec_digits(n);
    if n < 10 {
        lemma_digit_char_val(n);
        assert(s[i] == d[0]);
        assert(num_val(s, i, i) == 0);
    } else {
        let dp = spec_dec_digits(n / 10);
        assert(s.subrange(i, i + dp.len() as int) =~= dp) by {
            assert forall|q: int| 0 <= q < dp.len() implies s.subrange(
                i,
                i + dp.len() as int,
            )[q] == dp[q] by {
                assert(s.subrange(i, i + d.len() as int)[q] == d[q]);
            }
        }
        lemma_num_val_of_dec(n / 10, s, i);
        lemma_digit_char_val(n % 10);
        assert(s[i + d.len() - 1] == d[d.len() - 1]) by {
            assert(s.subrange(i, i + d.len() as int)[d.len() - 1] == d[d.len() - 1]);
        }
        assert(num_val(s, i, i + d.len()) == num_val(s, i, i + dp.len()) * 10 + digit_val(
            s[i + d.len() - 1],
        ));
        assert((n / 10) * 10 + n % 10 == n);
    }
}

/// One piece of text-level fidelity: the decimal text the serializer
/// writes for a number parses back to exactly that number.
pub proof fn lemma_number_text_roundtrip(n: u64)
    ensures
        spec_parse(spec_ser(JsonV::Num(n))) == Some(JsonV::Num(n)),
{
    let s = spec_dec_digits(n);
    lemma_dec_digits_shape(n);
    assert(ws_count(s, 0) == 0);
    lemma_digit_count_exact(s, 0, s.len() as int);
    assert(s.subrange(0, s.len() as int) =~= s);
    lemma_num_val_of_dec(n, s, 0);
    assert(parse_value(s, 0) == Some((JsonV::Num(n), s.len() as int)));
    assert(ws_count(s, s.len() as int) == 0);
}


// ---------------------------------------------------------------------------
// The serializer's string text parses back to the string it wrote
// ---------------------------------------------------------------------------
/// A character the string codec can carry: anything but a raw control
/// character without a named escape.  The serializer writes such controls
/// raw, and the parser rejects them.
pub open spec fn writable_char(c: char) -> bool {
    (c as u32) >= 32 || c == '\n' || c == '\t' || c == '\r' || c == '\u{8}' || c == '\u{c}'
}

proof fn lemma_esc_char_cases(c: char)
    requires
        writable_char(c),
    ensures
        esc_char(c).len() == 2 ==> esc_char(c)[0] == '\\' && unesc(esc_char(c)[1]) == Some(c),
        esc_char(c).len() == 1 ==> esc_char(c)[0] == c && c != '"' && c != '\\' && (c as u32)
            >= 32,
{
}

proof fn lemma_parse_esc(t: Seq<char>, s: Seq<char>, i: int)
    requires
        0 <= i,
        i + spec_esc(t).len() + 1 <= s.len(),
        s.subrange(i, i + spec_esc(t).len() + 1) == spec_esc(t) + seq!['"'],
        forall|q: int| 0 <= q < t.len() ==> writable_char(#[trigger] t[q]),
    ensures
        parse_str_body(s, i) == Some((t, i + spec_esc(t).len() + 1)),
    decreases t.len(),
{
    let e = spec_esc(t);
    let whole = e + seq!['"'];
    if t.len() == 0 {
        assert(s[i] == whole[0]) by {
            assert(s.subrange(i, i + e.len() + 1)[0] == whole[0]);
        }
        assert(t =~= Seq::<char>::empty());
    } else {
        let ec = esc_char(t[0]);
        let rest = t.drop_first();
        lemma_esc_char_cases(t[0]);
        assert(e == ec + spec_esc(rest));
        assert forall|q: int| 0 <= q < e.len() + 1 implies s[i + q] == whole[q] by {
            assert(s.subrange(i, i + e.len() + 1)[q] == whole[q]);
        }
        let i2 = i + ec.len() as int;
        assert(s.subrange(i2, i2 + spec_esc(rest).len() + 1) =~= spec_esc(rest) + seq!['"'])
            by {
            assert forall|q: int| 0 <= q < spec_esc(rest).len() + 1 implies s.subrange(
                i2,
                i2 + spec_esc(rest).len() + 1,
            )[q] == (spec_esc(rest) + seq!['"'])[q] by {
                assert(s[i2 + q] == whole[ec.len() + q]);
            }
        }
        lemma_parse_esc(rest, s, i2);
        assert(s[i + 0] == whole[0]);
        assert(whole[0] == ec[0]);
        if ec.len() == 2 {
            assert(whole[1] == ec[1]);
            assert(s[i] == '\\');
            assert(s[i + 1] == ec[1]);
            assert(unesc(s[i + 1]) == Some(t[0]));
        } else {
            assert(s[i] == t[0]);
        }
        assert(seq![t[0]] + rest =~= t);
    }
}

/// The other piece of text-level fidelity: the quoted, escaped text the
/// serializer writes for a string of writable characters parses back to
/// exactly that string.
pub proof fn lemma_string_text_roundtrip(t: Seq<char>)
    requires
        forall|q: int| 0 <= q < t.len() ==> writable_char(#[trigger] t[q]),
    ensures
        spec_parse(spec_ser(JsonV::Str(t))) == Some(JsonV::Str(t)),
{
    let s = spec_ser(JsonV::Str(t));
    assert(s == seq!['"'] + spec_esc(t) + seq!['"']);
    assert(s[0] == '"');
    assert(ws_count(s, 0) == 0);
    assert(s.subrange(1, 1 + spec_esc(t).len() as int + 1) =~= spec_esc(t) + seq!['"']);
    lemma_parse_esc(t, s, 1);
    assert(parse_value(s, 0) == Some((JsonV::Str(t), s.len() as int)));
    assert(ws_count(s, s.len() as int) == 0);
}


/// The written forms of `null` and the booleans parse back to themselves.
pub proof fn lemma_literal_text_roundtrip(b: bool)
    ensures
        spec_parse(spec_ser(JsonV::Null)) == Some(JsonV::Null),
        spec_parse(spec_ser(JsonV::Bool(b))) == Some(JsonV::Bool(b)),
{
    let sn = spec_ser(JsonV::Null);
    assert(ws_count(sn, 0) == 0);
    assert(parse_value(sn, 0) == Some((JsonV::Null, 4int)));
    assert(ws_count(sn, 4) == 0);
    let sb = spec_ser(JsonV::Bool(b));
    assert(ws_count(sb, 0) == 0);
    if b {
        assert(parse_value(sb, 0) == Some((JsonV::Bool(true), 4int)));
        assert(ws_count(sb, 4) == 0);
    } else {
        assert(parse_value(sb, 0) == Some((JsonV::Bool(false), 5int)));
        assert(ws_count(sb, 5) == 0);
    }
}

} // verus!
