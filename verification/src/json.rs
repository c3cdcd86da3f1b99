//! The library's own model of a JSON document.
//!
//! Tool arguments, tool results and the wire bodies of the interaction
//! protocol are JSON. The verified logic works on this model: values are
//! built, inspected and rendered to wire text by verified code, and only
//! parsing wire text into the model goes through an outside crate.

use vstd::prelude::*;

verus! {

/// A JSON value. Numbers keep the textual form they had on the wire, so a
/// value can pass through the library without losing precision.
#[derive(Debug)]
pub enum Json {
    Null,
    Bool(bool),
    Num(String),
    Str(String),
    Arr(Vec<Json>),
    Obj(Vec<(String, Json)>),
}

/// The mathematical shape of a JSON value: what contracts speak about.
#[verifier::ext_equal]
pub enum JsonV {
    Null,
    Bool(bool),
    Num(Seq<char>),
    Str(Seq<char>),
    Arr(Seq<JsonV>),
    Obj(Seq<(Seq<char>, JsonV)>),
}

pub open spec fn jview(j: Json) -> JsonV
    decreases j,
{
    match j {
        Json::Null => JsonV::Null,
        Json::Bool(b) => JsonV::Bool(b),
        Json::Num(s) => JsonV::Num(s@),
        Json::Str(s) => JsonV::Str(s@),
        Json::Arr(items) => JsonV::Arr(jview_list(items@)),
        Json::Obj(members) => JsonV::Obj(jview_members(members@)),
    }
}

pub open spec fn jview_list(items: Seq<Json>) -> Seq<JsonV>
    decreases items,
{
    if items.len() == 0 {
        Seq::empty()
    } else {
        seq![jview(items[0])] + jview_list(items.drop_first())
    }
}

pub open spec fn jview_members(members: Seq<(String, Json)>) -> Seq<(Seq<char>, JsonV)>
    decreases members,
{
    if members.len() == 0 {
        Seq::empty()
    } else {
        seq![(members[0].0@, jview(members[0].1))] + jview_members(members.drop_first())
    }
}

impl View for Json {
    type V = JsonV;

    open spec fn view(&self) -> JsonV {
        jview(*self)
    }
}

pub proof fn lemma_jview_list(items: Seq<Json>)
    ensures
        jview_list(items).len() == items.len(),
        forall|i: int| 0 <= i < items.len() ==> jview_list(items)[i] == jview(items[i]),
    decreases items.len(),
{
    if items.len() > 0 {
        lemma_jview_list(items.drop_first());
    }
}

pub proof fn lemma_jview_members(members: Seq<(String, Json)>)
    ensures
        jview_members(members).len() == members.len(),
        forall|i: int| 0 <= i < members.len()
            ==> jview_members(members)[i] == (members[i].0@, jview(members[i].1)),
    decreases members.len(),
{
    if members.len() > 0 {
        lemma_jview_members(members.drop_first());
    }
}

pub proof fn lemma_jview_list_push(items: Seq<Json>, x: Json)
    ensures
        jview_list(items.push(x)) =~= jview_list(items).push(jview(x)),
{
    lemma_jview_list(items.push(x));
    lemma_jview_list(items);
    assert forall|i: int| 0 <= i < items.len() + 1 implies
        jview_list(items.push(x))[i] == jview_list(items).push(jview(x))[i] by {
        if i < items.len() {
            assert(items.push(x)[i] == items[i]);
        } else {
            assert(items.push(x)[i] == x);
        }
    }
}

impl Clone for Json {
    fn clone(&self) -> (r: Self)
        ensures
            r@ == self@,
        decreases self,
    {
        match self {
            Json::Null => Json::Null,
            Json::Bool(b) => Json::Bool(*b),
            Json::Num(s) => Json::Num(s.clone()),
            Json::Str(s) => Json::Str(s.clone()),
            Json::Arr(items) => {
                let mut out: Vec<Json> = Vec::new();
                let mut i: usize = 0;
                while i < items.len()
                    invariant
                        i <= items.len(),
                        *self is Arr,
                        items@ == self->Arr_0@,
                        out@.len() == i,
                        forall|k: int| 0 <= k < i ==> jview(#[trigger] out@[k]) == jview(items@[k]),
                    decreases items.len() - i,
                {
                    proof {
                        assert(decreases_to!(*self => self->Arr_0@[i as int]));
                    }
                    out.push(items[i].clone());
                    i += 1;
                }
                proof {
                    lemma_jview_list(out@);
                    lemma_jview_list(items@);
                    assert(jview_list(out@) =~= jview_list(items@));
                }
                Json::Arr(out)
            }
            Json::Obj(members) => {
                let mut out: Vec<(String, Json)> = Vec::new();
                let mut i: usize = 0;
                while i < members.len()
                    invariant
                        i <= members.len(),
                        *self is Obj,
                        members@ == self->Obj_0@,
                        out@.len() == i,
                        forall|k: int| 0 <= k < i ==> (#[trigger] out@[k]).0@ == members@[k].0@
                            && jview(out@[k].1) == jview(members@[k].1),
                    decreases members.len() - i,
                {
                    proof {
                        assert(decreases_to!(*self => self->Obj_0@[i as int].1));
                    }
                    let pair = &members[i];
                    out.push((pair.0.clone(), pair.1.clone()));
                    i += 1;
                }
                proof {
                    lemma_jview_members(out@);
                    lemma_jview_members(members@);
                    assert(jview_members(out@) =~= jview_members(members@));
                }
                Json::Obj(out)
            }
        }
    }
}

/// The value under `key` in an object's member list: the first member with
/// that key, searched from the front.
pub open spec fn lookup(members: Seq<(Seq<char>, JsonV)>, key: Seq<char>) -> Option<JsonV>
    decreases members.len(),
{
    if members.len() == 0 {
        None
    } else if members[0].0 == key {
        Some(members[0].1)
    } else {
        lookup(members.drop_first(), key)
    }
}

/// The member under `key` of an object view, `None` for any other shape.
pub open spec fn jget(v: JsonV, key: Seq<char>) -> Option<JsonV> {
    match v {
        JsonV::Obj(members) => lookup(members, key),
        _ => None,
    }
}

/// Whether two string slices hold the same characters.
pub fn str_eq(a: &str, b: &str) -> (r: bool)
    ensures
        r == (a@ == b@),
{
    let sa: String = a.to_owned();
    let sb: String = b.to_owned();
    sa == sb
}

impl Json {
    /// The member stored under `key`, when the value is an object that has
    /// one; `None` on every other value.
    pub fn get<'a>(&'a self, key: &str) -> (r: Option<&'a Json>)
        ensures
            match jget(self@, key@) {
                Some(v) => r is Some && r->0@ == v,
                None => r is None,
            },
    {
        match self {
            Json::Obj(members) => {
                proof {
                    lemma_jview_members(members@);
                    assert(jview_members(members@)
                        =~= jview_members(members@).subrange(0, members@.len() as int));
                }
                let ghost model = jview_members(members@);
                let mut i: usize = 0;
                while i < members.len()
                    invariant
                        i <= members.len(),
                        *self is Obj,
                        members@ == self->Obj_0@,
                        model == jview_members(members@),
                        model.len() == members@.len(),
                        forall|k: int| 0 <= k < members@.len()
                            ==> model[k] == (members@[k].0@, jview(members@[k].1)),
                        lookup(model, key@) == lookup(model.subrange(i as int, model.len() as int), key@),
                    decreases members.len() - i,
                {
                    proof {
                        assert(model.subrange(i as int, model.len() as int)[0] == model[i as int]);
                        assert(model.subrange(i as int, model.len() as int).drop_first()
                            =~= model.subrange(i + 1, model.len() as int));
                    }
                    if str_eq(members[i].0.as_str(), key) {
                        return Some(&members[i].1);
                    }
                    i += 1;
                }
                None
            }
            _ => None,
        }
    }

    /// The characters of the string stored under `key`, when there is one.
    pub fn get_str<'a>(&'a self, key: &str) -> (r: Option<&'a String>)
        ensures
            match jget(self@, key@) {
                Some(v) => match v {
                    JsonV::Str(s) => r is Some && r->0@ == s,
                    _ => r is None,
                },
                None => r is None,
            },
    {
        match self.get(key) {
            Some(Json::Str(s)) => Some(s),
            _ => None,
        }
    }

    /// The boolean stored under `key`, when there is one.
    pub fn get_bool(&self, key: &str) -> (r: Option<bool>)
        ensures
            match jget(self@, key@) {
                Some(v) => match v {
                    JsonV::Bool(b) => r == Some(b),
                    _ => r is None,
                },
                None => r is None,
            },
    {
        match self.get(key) {
            Some(Json::Bool(b)) => Some(*b),
            _ => None,
        }
    }
}

} // verus!

verus! {

// ---------------------------------------------------------------------------
// Rendering a value to wire text.
// ---------------------------------------------------------------------------

/// One hexadecimal digit, lower case.
pub open spec fn hex_digit(n: nat) -> char {
    if n == 0 { '0' } else if n == 1 { '1' } else if n == 2 { '2' } else if n == 3 { '3' }
    else if n == 4 { '4' } else if n == 5 { '5' } else if n == 6 { '6' } else if n == 7 { '7' }
    else if n == 8 { '8' } else if n == 9 { '9' } else if n == 10 { 'a' } else if n == 11 { 'b' }
    else if n == 12 { 'c' } else if n == 13 { 'd' } else if n == 14 { 'e' } else { 'f' }
}

/// How one character appears inside a JSON string literal.
pub open spec fn escaped_char(c: char) -> Seq<char> {
    if c == '"' { seq!['\\', '"'] }
    else if c == '\\' { seq!['\\', '\\'] }
    else if c == '\n' { seq!['\\', 'n'] }
    else if c == '\r' { seq!['\\', 'r'] }
    else if c == '\t' { seq!['\\', 't'] }
    else if (c as u32) < 0x20 {
        seq!['\\', 'u', '0', '0', hex_digit((c as u32 / 16) as nat), hex_digit((c as u32 % 16) as nat)]
    } else { seq![c] }
}

/// A whole string, escaped character by character.
pub open spec fn escaped(s: Seq<char>) -> Seq<char>
    decreases s.len(),
{
    if s.len() == 0 {
        Seq::empty()
    } else {
        escaped_char(s[0]) + escaped(s.drop_first())
    }
}

pub proof fn lemma_escaped_snoc(s: Seq<char>, c: char)
    ensures
        escaped(s.push(c)) == escaped(s) + escaped_char(c),
    decreases s.len(),
{
    if s.len() == 0 {
        assert(s.push(c)[0] == c);
        assert(s.push(c).drop_first() =~= Seq::<char>::empty());
        assert(escaped(Seq::<char>::empty()) == Seq::<char>::empty());
        assert(escaped(s.push(c)) == escaped_char(c) + escaped(Seq::<char>::empty()));
        assert(escaped(s.push(c)) =~= escaped(s) + escaped_char(c));
    } else {
        assert(s.push(c)[0] == s[0]);
        assert(s.push(c).drop_first() =~= s.drop_first().push(c));
        lemma_escaped_snoc(s.drop_first(), c);
        assert(escaped(s.push(c)) =~= escaped(s) + escaped_char(c));
    }
}

/// The wire text of a JSON value.
pub open spec fn rendered(v: JsonV) -> Seq<char>
    decreases v,
{
    match v {
        JsonV::Null => "null"@,
        JsonV::Bool(b) => if b { "true"@ } else { "false"@ },
        JsonV::Num(s) => s,
        JsonV::Str(s) => seq!['"'] + escaped(s) + seq!['"'],
        JsonV::Arr(items) => seq!['['] + rendered_items(items) + seq![']'],
        JsonV::Obj(members) => seq!['{'] + rendered_members(members) + seq!['}'],
    }
}

pub open spec fn rendered_items(items: Seq<JsonV>) -> Seq<char>
    decreases items,
{
    if items.len() == 0 {
        Seq::empty()
    } else if items.len() == 1 {
        rendered(items[0])
    } else {
        rendered(items[0]) + seq![','] + rendered_items(items.drop_first())
    }
}

/// One `"key":value` pair of an object.
pub open spec fn member_text(m: (Seq<char>, JsonV)) -> Seq<char>
    decreases m,
{
    seq!['"'] + escaped(m.0) + seq!['"', ':'] + rendered(m.1)
}

pub open spec fn rendered_members(members: Seq<(Seq<char>, JsonV)>) -> Seq<char>
    decreases members,
{
    if members.len() == 0 {
        Seq::empty()
    } else if members.len() == 1 {
        member_text(members[0])
    } else {
        member_text(members[0]) + seq![','] + rendered_members(members.drop_first())
    }
}

pub proof fn lemma_rendered_items_snoc(items: Seq<JsonV>, x: JsonV)
    ensures
        rendered_items(items.push(x)) == if items.len() == 0 {
            rendered(x)
        } else {
            rendered_items(items) + seq![','] + rendered_items(seq![x])
        },
    decreases items.len(),
{
    if items.len() == 0 {
        assert(items.push(x) =~= seq![x]);
    } else {
        assert(items.push(x).drop_first() =~= items.drop_first().push(x));
        lemma_rendered_items_snoc(items.drop_first(), x);
        if items.len() == 1 {
            assert(rendered_items(items.push(x))
                =~= rendered_items(items) + seq![','] + rendered_items(seq![x]));
        } else {
            assert(rendered_items(items.push(x))
                =~= rendered_items(items) + seq![','] + rendered_items(seq![x]));
        }
    }
}

pub proof fn lemma_rendered_members_snoc(members: Seq<(Seq<char>, JsonV)>, x: (Seq<char>, JsonV))
    ensures
        rendered_members(members.push(x)) == if members.len() == 0 {
            member_text(x)
        } else {
            rendered_members(members) + seq![','] + rendered_members(seq![x])
        },
    decreases members.len(),
{
    if members.len() == 0 {
        assert(members.push(x) =~= seq![x]);
    } else {
        assert(members.push(x).drop_first() =~= members.drop_first().push(x));
        lemma_rendered_members_snoc(members.drop_first(), x);
        if members.len() == 1 {
            assert(rendered_members(members.push(x))
                =~= rendered_members(members) + seq![','] + rendered_members(seq![x]));
        } else {
            assert(rendered_members(members.push(x))
                =~= rendered_members(members) + seq![','] + rendered_members(seq![x]));
        }
    }
}

/// The text of one hexadecimal digit.
pub fn hex_digit_str(n: u8) -> (r: &'static str)
    requires
        n < 16,
    ensures
        r@ == seq![hex_digit(n as nat)],
{
    proof {
        reveal_strlit("0"); reveal_strlit("1"); reveal_strlit("2"); reveal_strlit("3");
        reveal_strlit("4"); reveal_strlit("5"); reveal_strlit("6"); reveal_strlit("7");
        reveal_strlit("8"); reveal_strlit("9"); reveal_strlit("a"); reveal_strlit("b");
        reveal_strlit("c"); reveal_strlit("d"); reveal_strlit("e"); reveal_strlit("f");
    }
    let r: &'static str = match n {
        0 => "0", 1 => "1", 2 => "2", 3 => "3",
        4 => "4", 5 => "5", 6 => "6", 7 => "7",
        8 => "8", 9 => "9", 10 => "a", 11 => "b",
        12 => "c", 13 => "d", 14 => "e", _ => "f",
    };
    proof {
        assert(r@ =~= seq![hex_digit(n as nat)]);
    }
    r
}

/// A string as it appears inside a JSON string literal, quotes excluded.
pub fn escape_string(s: &str) -> (r: String)
    ensures
        r@ == escaped(s@),
{
    let n = s.unicode_len();
    let mut acc = String::new();
    proof {
        assert(s@.subrange(0, 0) =~= Seq::<char>::empty());
    }
    let mut i: usize = 0;
    while i < n
        invariant
            i <= n,
            n == s@.len(),
            acc@ == escaped(s@.subrange(0, i as int)),
        decreases n - i,
    {
        let c = s.get_char(i);
        proof {
            lemma_escaped_snoc(s@.subrange(0, i as int), c);
            assert(s@.subrange(0, i as int).push(c) =~= s@.subrange(0, i + 1));
        }
        if c == '"' {
            proof { reveal_strlit("\\\""); }
            acc.append("\\\"");
            proof { assert("\\\""@ =~= escaped_char(c)); }
        } else if c == '\\' {
            proof { reveal_strlit("\\\\"); }
            acc.append("\\\\");
            proof { assert("\\\\"@ =~= escaped_char(c)); }
        } else if c == '\n' {
            proof { reveal_strlit("\\n"); }
            acc.append("\\n");
            proof { assert("\\n"@ =~= escaped_char(c)); }
        } else if c == '\r' {
            proof { reveal_strlit("\\r"); }
            acc.append("\\r");
            proof { assert("\\r"@ =~= escaped_char(c)); }
        } else if c == '\t' {
            proof { reveal_strlit("\\t"); }
            acc.append("\\t");
            proof { assert("\\t"@ =~= escaped_char(c)); }
        } else if (c as u32) < 0x20 {
            let code = c as u32;
            proof { reveal_strlit("\\u00"); }
            acc.append("\\u00");
            acc.append(hex_digit_str((code / 16) as u8));
            acc.append(hex_digit_str((code % 16) as u8));
            proof {
                assert("\\u00"@ + seq![hex_digit((code / 16) as nat)] + seq![hex_digit((code % 16) as nat)]
                    =~= escaped_char(c));
            }
        } else {
            let piece = s.substring_char(i, i + 1);
            acc.append(piece);
            proof {
                assert(piece@ =~= seq![c]);
                assert(seq![c] =~= escaped_char(c));
            }
        }
        i += 1;
    }
    proof {
        assert(s@.subrange(0, n as int) =~= s@);
    }
    acc
}

impl Json {
    /// The value's wire text.
    pub fn to_text(&self) -> (r: String)
        ensures
            r@ == rendered(self@),
        decreases self,
    {
        match self {
            Json::Null => "null".to_owned(),
            Json::Bool(b) => if *b { "true".to_owned() } else { "false".to_owned() },
            Json::Num(s) => s.clone(),
            Json::Str(s) => {
                let mut acc = "\"".to_owned();
                let piece = escape_string(s.as_str());
                acc.append(piece.as_str());
                acc.append("\"");
                proof {
                    reveal_strlit("\"");
                    assert(acc@ =~= rendered(self@));
                }
                acc
            }
            Json::Arr(items) => {
                let mut acc = "[".to_owned();
                proof {
                    reveal_strlit("[");
                    assert(items@.subrange(0, 0) =~= Seq::<Json>::empty());
                    assert(acc@ =~= seq!['['] + rendered_items(jview_list(items@.subrange(0, 0))));
                }
                let mut i: usize = 0;
                while i < items.len()
                    invariant
                        i <= items.len(),
                        *self is Arr,
                        items@ == self->Arr_0@,
                        acc@ == seq!['['] + rendered_items(jview_list(items@.subrange(0, i as int))),
                    decreases items.len() - i,
                {
                    proof {
                        assert(decreases_to!(*self => self->Arr_0@[i as int]));
                    }
                    if i > 0 {
                        acc.append(",");
                        proof { reveal_strlit(","); }
                    }
                    let piece = items[i].to_text();
                    acc.append(piece.as_str());
                    proof {
                        let ghost prefix = items@.subrange(0, i as int);
                        let ghost x = items@[i as int];
                        assert(prefix.push(x) =~= items@.subrange(0, i + 1));
                        lemma_jview_list_push(prefix, x);
                        lemma_jview_list(prefix);
                        lemma_rendered_items_snoc(jview_list(prefix), jview(x));
                        assert(rendered_items(seq![jview(x)]) == rendered(jview(x)));
                        assert(acc@ =~= seq!['['] + rendered_items(jview_list(items@.subrange(0, i + 1))));
                    }
                    i += 1;
                }
                acc.append("]");
                proof {
                    reveal_strlit("]");
                    assert(items@.subrange(0, items@.len() as int) =~= items@);
                    assert(acc@ =~= rendered(self@));
                }
                acc
            }
            Json::Obj(members) => {
                let mut acc = "{".to_owned();
                proof {
                    reveal_strlit("{");
                    assert(members@.subrange(0, 0) =~= Seq::<(String, Json)>::empty());
                    assert(acc@ =~= seq!['{'] + rendered_members(jview_members(members@.subrange(0, 0))));
                }
                let mut i: usize = 0;
                while i < members.len()
                    invariant
                        i <= members.len(),
                        *self is Obj,
                        members@ == self->Obj_0@,
                        acc@ == seq!['{'] + rendered_members(jview_members(members@.subrange(0, i as int))),
                    decreases members.len() - i,
                {
                    proof {
                        assert(decreases_to!(*self => self->Obj_0@[i as int].1));
                    }
                    if i > 0 {
                        acc.append(",");
                        proof { reveal_strlit(","); }
                    }
                    acc.append("\"");
                    let key_piece = escape_string(members[i].0.as_str());
                    acc.append(key_piece.as_str());
                    acc.append("\":");
                    let val_piece = members[i].1.to_text();
                    acc.append(val_piece.as_str());
                    proof {
                        reveal_strlit("\"");
                        reveal_strlit("\":");
                        let ghost prefix = members@.subrange(0, i as int);
                        let ghost x = members@[i as int];
                        assert(prefix.push(x) =~= members@.subrange(0, i + 1));
                        lemma_jview_members_push(prefix, x);
                        lemma_jview_members(prefix);
                        lemma_rendered_members_snoc(jview_members(prefix), (x.0@, jview(x.1)));
                        assert(rendered_members(seq![(x.0@, jview(x.1))]) == member_text((x.0@, jview(x.1))));
                        assert(seq!['"'] + escaped(x.0@) + "\":"@ =~= seq!['"'] + escaped(x.0@) + seq!['"', ':']);
                        assert(acc@ =~= seq!['{'] + rendered_members(jview_members(members@.subrange(0, i + 1))));
                    }
                    i += 1;
                }
                acc.append("}");
                proof {
                    reveal_strlit("}");
                    assert(members@.subrange(0, members@.len() as int) =~= members@);
                    assert(acc@ =~= rendered(self@));
                }
                acc
            }
        }
    }
}

pub proof fn lemma_jview_members_push(members: Seq<(String, Json)>, x: (String, Json))
    ensures
        jview_members(members.push(x)) =~= jview_members(members).push((x.0@, jview(x.1))),
{
    lemma_jview_members(members.push(x));
    lemma_jview_members(members);
    assert forall|i: int| 0 <= i < members.len() + 1 implies
        jview_members(members.push(x))[i] == jview_members(members).push((x.0@, jview(x.1)))[i] by {
        if i < members.len() {
            assert(members.push(x)[i] == members[i]);
        } else {
            assert(members.push(x)[i] == x);
        }
    }
}

} // verus!

verus! {

// ---------------------------------------------------------------------------
// Decimal text for integers.
// ---------------------------------------------------------------------------

/// The decimal digits of a natural number, most significant first.
pub open spec fn dec_digits(n: nat) -> Seq<char>
    decreases n,
{
    if n < 10 {
        seq![hex_digit(n)]
    } else {
        dec_digits(n / 10).push(hex_digit(n % 10))
    }
}

/// The decimal text of an integer, with a leading minus when negative.
pub open spec fn dec_int(i: int) -> Seq<char> {
    if i < 0 {
        seq!['-'] + dec_digits((-i) as nat)
    } else {
        dec_digits(i as nat)
    }
}

pub fn u64_to_string(n: u64) -> (r: String)
    ensures
        r@ == dec_digits(n as nat),
    decreases n,
{
    if n < 10 {
        hex_digit_str(n as u8).to_owned()
    } else {
        proof {
            assert(n / 10 < n && n % 10 < 10) by (nonlinear_arith)
                requires n >= 10;
        }
        let mut acc = u64_to_string(n / 10);
        acc.append(hex_digit_str((n % 10) as u8));
        proof {
            assert(dec_digits((n / 10) as nat) + seq![hex_digit((n % 10) as nat)]
                =~= dec_digits((n / 10) as nat).push(hex_digit((n % 10) as nat)));
        }
        acc
    }
}

pub fn i64_to_string(n: i64) -> (r: String)
    ensures
        r@ == dec_int(n as int),
{
    if n >= 0 {
        u64_to_string(n as u64)
    } else {
        let m: u64 = (-(n as i128)) as u64;
        proof {
            assert(m as int == -(n as int));
        }
        let mut acc = "-".to_owned();
        let digits = u64_to_string(m);
        acc.append(digits.as_str());
        proof {
            reveal_strlit("-");
            assert(acc@ =~= dec_int(n as int));
        }
        acc
    }
}

// ---------------------------------------------------------------------------
// Parsing wire text, through the outside crate.
// ---------------------------------------------------------------------------

#[verifier::external_type_specification]
#[verifier::external_body]
pub struct ExValue(serde_json::Value);

/// What a byte sequence parses to as JSON: the model of the document when the
/// bytes are a valid JSON document, and nothing otherwise.
pub uninterp spec fn json_of(bytes: Seq<u8>) -> Option<JsonV>;

/// Relies on `serde_json::from_slice`: parses one JSON document from bytes,
/// and fails exactly on input that is not valid JSON. The parsed tree is
/// carried over into the library's model by `convert_value`.
#[verifier::external_body]
pub fn parse_json(bytes: &[u8]) -> (r: Option<Json>)
    ensures
        r is Some <==> json_of(bytes@) is Some,
        r is Some ==> r->0@ == json_of(bytes@)->0,
{
    serde_json::from_slice::<serde_json::Value>(bytes).ok().map(convert_value)
}

/// Relies on the shape of `serde_json::Value`: carries the parsed tree into
/// the library's model, variant for variant; a number becomes its rendered
/// text.
#[verifier::external_body]
fn convert_value(v: serde_json::Value) -> Json {
    match v {
        serde_json::Value::Null => Json::Null,
        serde_json::Value::Bool(b) => Json::Bool(b),
        serde_json::Value::Number(n) => Json::Num(n.to_string()),
        serde_json::Value::String(s) => Json::Str(s),
        serde_json::Value::Array(a) => Json::Arr(a.into_iter().map(convert_value).collect()),
        serde_json::Value::Object(o) => Json::Obj(
            o.into_iter().map(|(k, x)| (k, convert_value(x))).collect(),
        ),
    }
}

} // verus!
