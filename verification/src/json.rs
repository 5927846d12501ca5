//! JSON values as trees, their compact text, and typed access to their parts.
//!
//! Reading a text into a tree is left to `serde_json`.  Writing a tree is
//! done here, so that the layout of every text that the service sends is
//! stated; only the quoting of strings is `serde_json`'s.

use vstd::prelude::*;
use crate::parsing::utils::{
    all_digits,
    decimal_digits,
    decimal_of,
    decimal_value,
    lemma_decimal_digits,
    lemma_digit_run,
    signed_digits,
    skip_digits,
};
use crate::text::{str_eq, to_chars};

verus! {

/// A JSON value.
///
/// A number is kept as its text.  An object keeps its members in order; a
/// tree that was read from a text has its members sorted by name, each name
/// once.
#[derive(Debug, PartialEq, Eq)]
pub enum Json {
    Null,
    Bool(bool),
    Number(String),
    Text(String),
    Array(Vec<Json>),
    Object(Vec<(String, Json)>),
}

/// Mathematical model of a [`Json`] value.
pub enum JsonView {
    Null,
    Bool(bool),
    Number(Seq<char>),
    Text(Seq<char>),
    Array(Seq<JsonView>),
    Object(Seq<(Seq<char>, JsonView)>),
}

/// The model of a tree.
pub open spec fn tree_model(tree: Json) -> JsonView
    decreases tree,
{
    match tree {
        Json::Null => JsonView::Null,
        Json::Bool(b) => JsonView::Bool(b),
        Json::Number(text) => JsonView::Number(text@),
        Json::Text(text) => JsonView::Text(text@),
        Json::Array(items) => JsonView::Array(item_models(items@)),
        Json::Object(members) => JsonView::Object(member_models(members@)),
    }
}

/// The models of the items of an array.
pub open spec fn item_models(items: Seq<Json>) -> Seq<JsonView>
    decreases items,
{
    Seq::new(
        items.len(),
        |i: int|
            if 0 <= i < items.len() {
                tree_model(items[i])
            } else {
                JsonView::Null
            },
    )
}

/// The models of the members of an object.
pub open spec fn member_models(members: Seq<(String, Json)>) -> Seq<(Seq<char>, JsonView)>
    decreases members,
{
    Seq::new(
        members.len(),
        |i: int|
            if 0 <= i < members.len() {
                (members[i].0@, tree_model(members[i].1))
            } else {
                (Seq::empty(), JsonView::Null)
            },
    )
}

impl View for Json {
    type V = JsonView;

    open spec fn view(&self) -> JsonView {
        tree_model(*self)
    }
}

impl DeepView for Json {
    type V = JsonView;

    open spec fn deep_view(&self) -> JsonView {
        self@
    }
}

/// `serde_json::Value`, the tree that `serde_json` reads a text into.  What
/// it holds is known only as [`value_tree`].
#[verifier::external_type_specification]
#[verifier::external_body]
pub struct ExJsonValue(serde_json::Value);

/// The tree that a `serde_json::Value` holds.
pub uninterp spec fn value_tree(value: serde_json::Value) -> JsonView;

/// The tree that `serde_json` reads from `text`, if `text` is one JSON value.
pub uninterp spec fn json_parse(text: Seq<char>) -> Option<JsonView>;

/// The JSON string literal that `serde_json` writes for `text`: the text in
/// double quotes, with the characters escaped that JSON asks to be.
pub uninterp spec fn json_quoted(text: Seq<char>) -> Seq<char>;

/// Moves the parts of a `serde_json::Value` into a tree, variant by variant;
/// a number becomes the text that `serde_json` prints for it.
#[verifier::external_body]
fn tree_of(value: serde_json::Value) -> (tree: Json)
    ensures
        tree@ == value_tree(value),
{
    match value {
        serde_json::Value::Null => Json::Null,
        serde_json::Value::Bool(b) => Json::Bool(b),
        serde_json::Value::Number(n) => Json::Number(n.to_string()),
        serde_json::Value::String(s) => Json::Text(s),
        serde_json::Value::Array(items) => Json::Array(items.into_iter().map(tree_of).collect()),
        serde_json::Value::Object(members) => Json::Object(
            members.into_iter().map(|(name, v)| (name, tree_of(v))).collect(),
        ),
    }
}

/// `serde_json::from_str` reads one JSON value from `text`, or fails.
#[verifier::external_body]
fn value_of_text(text: &str) -> (value: Option<serde_json::Value>)
    ensures
        match value {
            Some(v) => json_parse(text@) == Some(value_tree(v)),
            None => json_parse(text@) is None,
        },
{
    serde_json::from_str::<serde_json::Value>(text).ok()
}

/// `serde_json::to_string` writes `text` as a JSON string literal.
#[verifier::external_body]
fn quoted(text: &str) -> (literal: String)
    ensures
        literal@ == json_quoted(text@),
{
    match serde_json::to_string(text) {
        Ok(literal) => literal,
        Err(_) => String::new(),
    }
}

/// The texts in `parts`, separated by commas.
pub open spec fn comma_joined(parts: Seq<Seq<char>>) -> Seq<char>
    decreases parts.len(),
{
    if parts.len() == 0 {
        Seq::empty()
    } else if parts.len() == 1 {
        parts[0]
    } else {
        comma_joined(parts.drop_last()) + seq![','] + parts.last()
    }
}

impl JsonView {
    /// The compact text of the value: no blanks, members in their order.
    pub open spec fn text(self) -> Seq<char>
        decreases self,
    {
        match self {
            JsonView::Null => "null"@,
            JsonView::Bool(b) => if b {
                "true"@
            } else {
                "false"@
            },
            JsonView::Number(digits) => digits,
            JsonView::Text(text) => json_quoted(text),
            JsonView::Array(items) => seq!['['] + comma_joined(item_texts(items)) + seq![']'],
            JsonView::Object(members) => seq!['{'] + comma_joined(member_texts(members)) + seq![
                '}',
            ],
        }
    }

    /// The first member of an object that is called `name`.
    pub open spec fn member(self, name: Seq<char>) -> Option<JsonView> {
        match self {
            JsonView::Object(members) => first_named(members, name),
            _ => None,
        }
    }

    /// The text of a string value.
    pub open spec fn as_text(self) -> Option<Seq<char>> {
        match self {
            JsonView::Text(text) => Some(text),
            _ => None,
        }
    }

    /// The items of an array.
    pub open spec fn as_items(self) -> Option<Seq<JsonView>> {
        match self {
            JsonView::Array(items) => Some(items),
            _ => None,
        }
    }

    /// The truth value of a boolean.
    pub open spec fn as_bool(self) -> Option<bool> {
        match self {
            JsonView::Bool(b) => Some(b),
            _ => None,
        }
    }

    /// The text of a number.
    pub open spec fn as_number(self) -> Option<Seq<char>> {
        match self {
            JsonView::Number(digits) => Some(digits),
            _ => None,
        }
    }

    /// The value of a number that is written as an integer and fits into a signed 64 bit number.
    pub open spec fn as_i64(self) -> Option<i64> {
        match self {
            JsonView::Number(digits) => integer_of(digits),
            _ => None,
        }
    }

    /// The value of a number that is written as an integer without sign and fits into 64 bits.
    pub open spec fn as_u64(self) -> Option<u64> {
        match self {
            JsonView::Number(digits) => unsigned_of(digits),
            _ => None,
        }
    }

    /// The value of a number that is written as an integer and fits into a signed 32 bit number.
    pub open spec fn as_i32(self) -> Option<i32> {
        match self.as_i64() {
            Some(v) => if i32::MIN <= v <= i32::MAX {
                Some(v as i32)
            } else {
                None
            },
            None => None,
        }
    }

    /// The text of the string member `name`.
    pub open spec fn text_of(self, name: Seq<char>) -> Option<Seq<char>> {
        match self.member(name) {
            Some(value) => value.as_text(),
            None => None,
        }
    }

    /// The text of the number member `name`.
    pub open spec fn number_of(self, name: Seq<char>) -> Option<Seq<char>> {
        match self.member(name) {
            Some(value) => value.as_number(),
            None => None,
        }
    }

    /// The value of the integer member `name`.
    pub open spec fn i32_of(self, name: Seq<char>) -> Option<i32> {
        match self.member(name) {
            Some(value) => value.as_i32(),
            None => None,
        }
    }

    /// The value of the unsigned integer member `name`.
    pub open spec fn u64_of(self, name: Seq<char>) -> Option<u64> {
        match self.member(name) {
            Some(value) => value.as_u64(),
            None => None,
        }
    }

    /// The value of the unsigned integer member `name`.
    pub open spec fn u32_of(self, name: Seq<char>) -> Option<u32> {
        match self.member(name) {
            Some(value) => value.as_u32(),
            None => None,
        }
    }

    /// The truth value of the boolean member `name`.
    pub open spec fn bool_of(self, name: Seq<char>) -> Option<bool> {
        match self.member(name) {
            Some(value) => value.as_bool(),
            None => None,
        }
    }

    /// The value of a number that is written as an integer without sign and fits into 32 bits.
    pub open spec fn as_u32(self) -> Option<u32> {
        match self.as_u64() {
            Some(v) => if v <= u32::MAX {
                Some(v as u32)
            } else {
                None
            },
            None => None,
        }
    }
}

/// The texts of the items of an array.
pub open spec fn item_texts(items: Seq<JsonView>) -> Seq<Seq<char>>
    decreases items,
{
    Seq::new(
        items.len(),
        |i: int|
            if 0 <= i < items.len() {
                items[i].text()
            } else {
                Seq::empty()
            },
    )
}

/// The texts of the members of an object: the quoted name, a colon, the value.
pub open spec fn member_texts(members: Seq<(Seq<char>, JsonView)>) -> Seq<Seq<char>>
    decreases members,
{
    Seq::new(
        members.len(),
        |i: int|
            if 0 <= i < members.len() {
                json_quoted(members[i].0) + seq![':'] + members[i].1.text()
            } else {
                Seq::empty()
            },
    )
}

/// The value of the first member called `name`.
pub open spec fn first_named(members: Seq<(Seq<char>, JsonView)>, name: Seq<char>) -> Option<
    JsonView,
>
    decreases members.len(),
{
    if members.len() == 0 {
        None
    } else if members[0].0 == name {
        Some(members[0].1)
    } else {
        first_named(members.drop_first(), name)
    }
}

/// The number that `digits` writes without a sign, if it fits into 64 bits.
pub open spec fn unsigned_of(digits: Seq<char>) -> Option<u64> {
    if digits.len() > 0 && all_digits(digits) && decimal_value(digits) <= u64::MAX {
        Some(decimal_value(digits) as u64)
    } else {
        None
    }
}

/// The number that `text` writes, with or without a minus sign, if it fits
/// into a signed 64 bit number.
pub open spec fn integer_of(text: Seq<char>) -> Option<i64> {
    if text.len() > 0 && text[0] == '-' {
        let digits = text.drop_first();
        if digits.len() > 0 && all_digits(digits) && decimal_value(digits) <= 0x8000_0000_0000_0000 {
            Some((-decimal_value(digits)) as i64)
        } else {
            None
        }
    } else if text.len() > 0 && all_digits(text) && decimal_value(text) <= i64::MAX {
        Some(decimal_value(text) as i64)
    } else {
        None
    }
}

/// Reads the number that `chars[from..]` writes without a sign.
fn unsigned_from(chars: &[char], from: usize) -> (r: Option<u64>)
    requires
        from <= chars@.len(),
    ensures
        r == unsigned_of(chars@.skip(from as int)),
{
    let n = chars.len();
    if from == n {
        return None;
    }
    let end = skip_digits(chars, from);
    if end < n {
        proof {
            lemma_digit_run(chars@.skip(from as int));
        }
        return None;
    }
    decimal_of(chars, from, n)
}

/// Reads an unsigned integer from the text of a number.
pub fn parse_unsigned(text: &str) -> (r: Option<u64>)
    ensures
        r == unsigned_of(text@),
{
    let chars = to_chars(text);
    proof {
        assert(chars@.skip(0) =~= chars@);
    }
    unsigned_from(chars.as_slice(), 0)
}

/// Reads a signed integer from the text of a number.
pub fn parse_integer(text: &str) -> (r: Option<i64>)
    ensures
        r == integer_of(text@),
{
    let chars = to_chars(text);
    if chars.len() > 0 && chars[0] == '-' {
        match unsigned_from(chars.as_slice(), 1) {
            Some(magnitude) => if magnitude > 0x8000_0000_0000_0000 {
                None
            } else if magnitude == 0x8000_0000_0000_0000 {
                Some(i64::MIN)
            } else {
                Some(-(magnitude as i64))
            },
            None => None,
        }
    } else {
        proof {
            assert(chars@.skip(0) =~= chars@);
        }
        match unsigned_from(chars.as_slice(), 0) {
            Some(value) => if value > i64::MAX as u64 {
                None
            } else {
                Some(value as i64)
            },
            None => None,
        }
    }
}

proof fn lemma_first_named_skips(members: Seq<(Seq<char>, JsonView)>, name: Seq<char>, i: int)
    requires
        0 <= i <= members.len(),
        forall|j: int| 0 <= j < i ==> (#[trigger] members[j]).0 != name,
    ensures
        first_named(members, name) == first_named(members.skip(i), name),
    decreases i,
{
    if i > 0 {
        lemma_first_named_skips(members, name, i - 1);
        assert(members.skip(i - 1).drop_first() =~= members.skip(i));
    } else {
        assert(members.skip(0) =~= members);
    }
}

impl Json {
    /// Reads one JSON value from `text`.
    pub fn parse(text: &str) -> (tree: Option<Json>)
        ensures
            match tree {
                Some(j) => json_parse(text@) == Some(j@),
                None => json_parse(text@) is None,
            },
    {
        match value_of_text(text) {
            Some(value) => Some(tree_of(value)),
            None => None,
        }
    }

    /// A string value with the characters of `text`.
    pub fn text(text: &str) -> (tree: Json)
        ensures
            tree@ == JsonView::Text(text@),
    {
        Json::Text(crate::text::owned(text))
    }

    /// The first member of an object that is called `name`.
    pub fn get(&self, name: &str) -> (found: Option<&Json>)
        ensures
            match found {
                Some(value) => self@.member(name@) == Some(value@),
                None => self@.member(name@) is None,
            },
    {
        match self {
            Json::Object(members) => {
                let ghost all = member_models(members@);
                let mut i: usize = 0;
                while i < members.len()
                    invariant
                        i <= members@.len(),
                        all == member_models(members@),
                        self@ == JsonView::Object(all),
                        forall|j: int| 0 <= j < i ==> (#[trigger] all[j]).0 != name@,
                    decreases members@.len() - i,
                {
                    if str_eq(members[i].0.as_str(), name) {
                        proof {
                            lemma_first_named_skips(all, name@, i as int);
                        }
                        return Some(&members[i].1);
                    }
                    i += 1;
                }
                proof {
                    lemma_first_named_skips(all, name@, all.len() as int);
                }
                None
            },
            _ => None,
        }
    }

    /// The text of a string value.
    pub fn as_str(&self) -> (text: Option<&String>)
        ensures
            match text {
                Some(t) => self@.as_text() == Some(t@),
                None => self@.as_text() is None,
            },
    {
        match self {
            Json::Text(text) => Some(text),
            _ => None,
        }
    }

    /// The items of an array.
    pub fn as_array(&self) -> (items: Option<&Vec<Json>>)
        ensures
            match items {
                Some(v) => self@.as_items() == Some(v.deep_view()),
                None => self@.as_items() is None,
            },
    {
        match self {
            Json::Array(items) => {
                Some(items)
            },
            _ => None,
        }
    }

    /// The truth value of a boolean.
    pub fn as_bool(&self) -> (b: Option<bool>)
        ensures
            b == self@.as_bool(),
    {
        match self {
            Json::Bool(b) => Some(*b),
            _ => None,
        }
    }

    /// The text of a number.
    pub fn as_number(&self) -> (digits: Option<&String>)
        ensures
            match digits {
                Some(d) => self@.as_number() == Some(d@),
                None => self@.as_number() is None,
            },
    {
        match self {
            Json::Number(digits) => Some(digits),
            _ => None,
        }
    }

    /// The value of an integer that fits into a signed 64 bit number.
    pub fn as_i64(&self) -> (v: Option<i64>)
        ensures
            v == self@.as_i64(),
    {
        match self {
            Json::Number(digits) => parse_integer(digits.as_str()),
            _ => None,
        }
    }

    /// The value of an integer without sign that fits into 64 bits.
    pub fn as_u64(&self) -> (v: Option<u64>)
        ensures
            v == self@.as_u64(),
    {
        match self {
            Json::Number(digits) => parse_unsigned(digits.as_str()),
            _ => None,
        }
    }

    /// The value of an integer that fits into a signed 32 bit number.
    pub fn as_i32(&self) -> (v: Option<i32>)
        ensures
            v == self@.as_i32(),
    {
        match self.as_i64() {
            Some(v) => if v < i32::MIN as i64 || v > i32::MAX as i64 {
                None
            } else {
                Some(v as i32)
            },
            None => None,
        }
    }

    /// The value of an integer without sign that fits into 32 bits.
    pub fn as_u32(&self) -> (v: Option<u32>)
        ensures
            v == self@.as_u32(),
    {
        match self.as_u64() {
            Some(v) => if v > u32::MAX as u64 {
                None
            } else {
                Some(v as u32)
            },
            None => None,
        }
    }

    /// A copy of the text of the string member `name`.
    pub fn text_of(&self, name: &str) -> (text: Option<String>)
        ensures
            match text {
                Some(t) => self@.text_of(name@) == Some(t@),
                None => self@.text_of(name@) is None,
            },
    {
        match self.get(name) {
            Some(value) => match value.as_str() {
                Some(text) => Some(text.clone()),
                None => None,
            },
            None => None,
        }
    }

    /// A copy of the text of the number member `name`.
    pub fn number_of(&self, name: &str) -> (digits: Option<String>)
        ensures
            match digits {
                Some(d) => self@.number_of(name@) == Some(d@),
                None => self@.number_of(name@) is None,
            },
    {
        match self.get(name) {
            Some(value) => match value.as_number() {
                Some(digits) => Some(digits.clone()),
                None => None,
            },
            None => None,
        }
    }

    /// The value of the integer member `name`.
    pub fn i32_of(&self, name: &str) -> (v: Option<i32>)
        ensures
            v == self@.i32_of(name@),
    {
        match self.get(name) {
            Some(value) => value.as_i32(),
            None => None,
        }
    }

    /// The value of the unsigned integer member `name`.
    pub fn u64_of(&self, name: &str) -> (v: Option<u64>)
        ensures
            v == self@.u64_of(name@),
    {
        match self.get(name) {
            Some(value) => value.as_u64(),
            None => None,
        }
    }

    /// The value of the unsigned integer member `name`.
    pub fn u32_of(&self, name: &str) -> (v: Option<u32>)
        ensures
            v == self@.u32_of(name@),
    {
        match self.get(name) {
            Some(value) => value.as_u32(),
            None => None,
        }
    }

    /// The truth value of the boolean member `name`.
    pub fn bool_of(&self, name: &str) -> (v: Option<bool>)
        ensures
            v == self@.bool_of(name@),
    {
        match self.get(name) {
            Some(value) => value.as_bool(),
            None => None,
        }
    }

    /// The compact text of the value.
    pub fn render(&self) -> (text: String)
        ensures
            text@ == self@.text(),
        decreases self,
    {
        match self {
            Json::Null => crate::text::owned("null"),
            Json::Bool(b) => if *b {
                crate::text::owned("true")
            } else {
                crate::text::owned("false")
            },
            Json::Number(digits) => digits.clone(),
            Json::Text(text) => quoted(text.as_str()),
            Json::Array(items) => {
                let ghost parts = item_texts(item_models(items@));
                let mut out = String::new();
                out.push('[');
                let mut i: usize = 0;
                while i < items.len()
                    invariant
                        i <= items@.len(),
                        parts == item_texts(item_models(items@)),
                        forall|k: int|
                            0 <= k < items@.len() ==> decreases_to!(self => #[trigger] items@[k]),
                        out@ == seq!['['] + comma_joined(parts.take(i as int)),
                    decreases items@.len() - i,
                {
                    if i > 0 {
                        out.push(',');
                    }
                    let part = items[i].render();
                    out.append(part.as_str());
                    proof {
                        assert(parts.take(i + 1).drop_last() =~= parts.take(i as int));
                    }
                    i += 1;
                }
                out.push(']');
                proof {
                    assert(parts.take(parts.len() as int) =~= parts);
                }
                out
            },
            Json::Object(members) => {
                let ghost parts = member_texts(member_models(members@));
                let mut out = String::new();
                out.push('{');
                let mut i: usize = 0;
                while i < members.len()
                    invariant
                        i <= members@.len(),
                        parts == member_texts(member_models(members@)),
                        forall|k: int|
                            0 <= k < members@.len() ==> decreases_to!(self => (
                                #[trigger] members@[k]
                            ).1),
                        out@ == seq!['{'] + comma_joined(parts.take(i as int)),
                    decreases members@.len() - i,
                {
                    if i > 0 {
                        out.push(',');
                    }
                    let name = quoted(members[i].0.as_str());
                    out.append(name.as_str());
                    out.push(':');
                    let part = members[i].1.render();
                    out.append(part.as_str());
                    proof {
                        assert(parts.take(i + 1).drop_last() =~= parts.take(i as int));
                    }
                    i += 1;
                }
                out.push('}');
                proof {
                    assert(parts.take(parts.len() as int) =~= parts);
                }
                out
            },
        }
    }
}

/// Whether no two members have the same name.
pub open spec fn distinct_names(members: Seq<(Seq<char>, JsonView)>) -> bool {
    forall|i: int, j: int|
        0 <= i < j < members.len() ==> (#[trigger] members[i]).0 != (#[trigger] members[j]).0
}

/// In an object whose members have different names, each member is found under its name.
pub proof fn lemma_member_found(members: Seq<(Seq<char>, JsonView)>, i: int)
    requires
        distinct_names(members),
        0 <= i < members.len(),
    ensures
        JsonView::Object(members).member(members[i].0) == Some(members[i].1),
{
    lemma_first_named_skips(members, members[i].0, i);
}

/// The digits of a number are read as that number.
pub proof fn lemma_unsigned_of_digits(value: u64)
    ensures
        unsigned_of(decimal_digits(value as nat)) == Some(value),
        decimal_digits(value as nat).len() > 0,
        decimal_digits(value as nat)[0] != '-',
{
    lemma_decimal_digits(value as nat);
}

/// The text of an integer is read as that integer.
pub proof fn lemma_integer_of_digits(value: i64)
    ensures
        integer_of(signed_digits(value as int)) == Some(value),
{
    if value < 0 {
        let magnitude = (-value) as nat;
        lemma_decimal_digits(magnitude);
        let text = signed_digits(value as int);
        assert(text.drop_first() =~= decimal_digits(magnitude));
    } else {
        lemma_decimal_digits(value as nat);
    }
}

/// An object under construction: members are added at the end.
pub struct ObjectBuilder {
    members: Vec<(String, Json)>,
}

impl View for ObjectBuilder {
    type V = Seq<(Seq<char>, JsonView)>;

    closed spec fn view(&self) -> Seq<(Seq<char>, JsonView)> {
        member_models(self.members@)
    }
}

impl ObjectBuilder {
    /// An object without members.
    pub fn new() -> (builder: Self)
        ensures
            builder@ == Seq::<(Seq<char>, JsonView)>::empty(),
    {
        let builder = ObjectBuilder { members: Vec::new() };
        builder
    }

    /// Adds the member `name` with the given value.
    pub fn member(&mut self, name: &str, value: Json)
        ensures
            final(self)@ == old(self)@.push((name@, value@)),
    {
        self.members.push((crate::text::owned(name), value));
    }

    /// Adds the member `name` with a string as value.
    pub fn text(&mut self, name: &str, value: &String)
        ensures
            final(self)@ == old(self)@.push((name@, JsonView::Text(value@))),
    {
        self.member(name, Json::Text(value.clone()));
    }

    /// Adds the member `name` with the text of a number as value.
    pub fn number(&mut self, name: &str, digits: String)
        ensures
            final(self)@ == old(self)@.push((name@, JsonView::Number(digits@))),
    {
        self.member(name, Json::Number(digits));
    }

    /// The object with the members added so far.
    pub fn finish(self) -> (tree: Json)
        ensures
            tree@ == JsonView::Object(self@),
    {
        Json::Object(self.members)
    }
}

/// An array under construction: items are added at the end.
pub struct ArrayBuilder {
    items: Vec<Json>,
}

impl View for ArrayBuilder {
    type V = Seq<JsonView>;

    closed spec fn view(&self) -> Seq<JsonView> {
        item_models(self.items@)
    }
}

impl ArrayBuilder {
    /// An array without items.
    pub fn new() -> (builder: Self)
        ensures
            builder@ == Seq::<JsonView>::empty(),
    {
        let builder = ArrayBuilder { items: Vec::new() };
        builder
    }

    /// Adds an item.
    pub fn item(&mut self, value: Json)
        ensures
            final(self)@ == old(self)@.push(value@),
    {
        self.items.push(value);
    }

    /// The array with the items added so far.
    pub fn finish(self) -> (tree: Json)
        ensures
            tree@ == JsonView::Array(self@),
    {
        Json::Array(self.items)
    }
}

} // verus!
