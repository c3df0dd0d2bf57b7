//! Parameter values and the strategies by which they are encoded.

use crate::text::{decimal, i64_to_string, joined, u64_to_string};
use vstd::prelude::*;
use vstd::std_specs::cmp::PartialEqSpecImpl;
use vstd::std_specs::convert::FromSpecImpl;
use vstd::string::StringExecFns;

verus! {

/// The types a scalar parameter can be declared with.
#[derive(Debug, PartialEq, Eq, Clone, Copy, Structural)]
pub enum Kind {
    Int,
    Uint,
    Text,
}

/// The ways in which the value of a parameter is turned into text.
#[derive(Debug, PartialEq, Eq, Clone, Copy, Structural)]
pub enum Strategy {
    /// The natural string representation of the value.
    Stringify,
    /// The value is a string already and is used as it is.
    PassThrough,
    /// `1` for true and `0` for false.
    Boolean,
    /// The string representations of the elements, joined by commas.
    Sequence,
    /// The string representation of the value if there is one, else nothing.
    Optional,
}

/// A value with a natural string representation.
#[derive(Debug, Eq)]
pub enum Scalar {
    Int(i64),
    Uint(u64),
    Text(String),
}

/// The mathematical content of a [`Scalar`].
pub enum ScalarView {
    Int(i64),
    Uint(u64),
    Text(Seq<char>),
}

impl ScalarView {
    /// The natural string representation: decimal digits for a number, the
    /// text itself for a text.
    pub open spec fn text(self) -> Seq<char> {
        match self {
            ScalarView::Int(i) => decimal(i as int),
            ScalarView::Uint(u) => decimal(u as int),
            ScalarView::Text(s) => s,
        }
    }

    /// The type of the value.
    pub open spec fn kind(self) -> Kind {
        match self {
            ScalarView::Int(_) => Kind::Int,
            ScalarView::Uint(_) => Kind::Uint,
            ScalarView::Text(_) => Kind::Text,
        }
    }

    /// The zero value of a type: the number 0, or the empty text.
    pub open spec fn zero(kind: Kind) -> ScalarView {
        match kind {
            Kind::Int => ScalarView::Int(0),
            Kind::Uint => ScalarView::Uint(0),
            Kind::Text => ScalarView::Text(Seq::empty()),
        }
    }
}

impl View for Scalar {
    type V = ScalarView;

    open spec fn view(&self) -> ScalarView {
        match self {
            Scalar::Int(i) => ScalarView::Int(*i),
            Scalar::Uint(u) => ScalarView::Uint(*u),
            Scalar::Text(s) => ScalarView::Text(s@),
        }
    }
}

impl PartialEq for Scalar {
    /// Two scalars are equal where they are of one type and hold the same.
    fn eq(&self, other: &Scalar) -> (equal: bool) {
        match (self, other) {
            (Scalar::Int(a), Scalar::Int(b)) => *a == *b,
            (Scalar::Uint(a), Scalar::Uint(b)) => *a == *b,
            (Scalar::Text(a), Scalar::Text(b)) => *a == *b,
            _ => false,
        }
    }
}

impl PartialEqSpecImpl for Scalar {
    open spec fn obeys_eq_spec() -> bool {
        true
    }

    open spec fn eq_spec(&self, other: &Scalar) -> bool {
        self@ == other@
    }
}

impl Clone for Scalar {
    fn clone(&self) -> (copy: Scalar)
        ensures
            copy@ == self@,
    {
        match self {
            Scalar::Int(i) => Scalar::Int(*i),
            Scalar::Uint(u) => Scalar::Uint(*u),
            Scalar::Text(s) => Scalar::Text(s.clone()),
        }
    }
}

impl Scalar {
    /// The zero value of a type: the number 0, or the empty text.
    pub fn zero(kind: Kind) -> (scalar: Scalar)
        ensures
            scalar@ == ScalarView::zero(kind),
    {
        match kind {
            Kind::Int => Scalar::Int(0),
            Kind::Uint => Scalar::Uint(0),
            Kind::Text => Scalar::Text(String::new()),
        }
    }

    /// A text value.
    pub fn text(text: &str) -> (scalar: Scalar)
        ensures
            scalar@ == ScalarView::Text(text@),
    {
        Scalar::Text(text.to_owned())
    }

    /// The type of the value.
    pub fn kind(&self) -> (kind: Kind)
        ensures
            kind == self@.kind(),
    {
        match self {
            Scalar::Int(_) => Kind::Int,
            Scalar::Uint(_) => Kind::Uint,
            Scalar::Text(_) => Kind::Text,
        }
    }

    /// The natural string representation of the value.
    pub fn to_text(&self) -> (text: String)
        ensures
            text@ == self@.text(),
    {
        match self {
            Scalar::Int(i) => i64_to_string(*i),
            Scalar::Uint(u) => u64_to_string(*u),
            Scalar::Text(s) => s.clone(),
        }
    }
}

/// The views of a sequence of scalars.
pub open spec fn scalar_views(list: Seq<Scalar>) -> Seq<ScalarView> {
    list.map_values(|s: Scalar| s@)
}

/// The string representations of a sequence of scalars.
pub open spec fn texts(list: Seq<ScalarView>) -> Seq<Seq<char>> {
    list.map_values(|s: ScalarView| s.text())
}

/// The view of an optional scalar.
pub open spec fn optional_view(value: Option<Scalar>) -> Option<ScalarView> {
    match value {
        Some(s) => Some(s@),
        None => None,
    }
}

/// The value of a parameter, held in the form that its encoding strategy
/// works on. The variant is the strategy.
#[derive(Debug, Eq)]
pub enum Value {
    Stringify(Scalar),
    PassThrough(String),
    Boolean(bool),
    Sequence(Vec<Scalar>),
    Optional(Option<Scalar>),
}

/// The mathematical content of a [`Value`].
pub enum ValueView {
    Stringify(ScalarView),
    PassThrough(Seq<char>),
    Boolean(bool),
    Sequence(Seq<ScalarView>),
    Optional(Option<ScalarView>),
}

impl ValueView {
    /// The strategy by which the value is encoded.
    pub open spec fn strategy(self) -> Strategy {
        match self {
            ValueView::Stringify(_) => Strategy::Stringify,
            ValueView::PassThrough(_) => Strategy::PassThrough,
            ValueView::Boolean(_) => Strategy::Boolean,
            ValueView::Sequence(_) => Strategy::Sequence,
            ValueView::Optional(_) => Strategy::Optional,
        }
    }

    /// The text that stands for the value in a query string, before it is
    /// URL-encoded.
    pub open spec fn encoded(self) -> Seq<char> {
        match self {
            ValueView::Stringify(s) => s.text(),
            ValueView::PassThrough(s) => s,
            ValueView::Boolean(b) => if b {
                "1"@
            } else {
                "0"@
            },
            ValueView::Sequence(list) => joined(texts(list), ","@),
            ValueView::Optional(value) => match value {
                Some(s) => s.text(),
                None => Seq::empty(),
            },
        }
    }

    /// The zero value of a strategy over a type: the zero of the type, the
    /// empty text, false, the empty sequence, or no value.
    pub open spec fn zero(strategy: Strategy, kind: Kind) -> ValueView {
        match strategy {
            Strategy::Stringify => ValueView::Stringify(ScalarView::zero(kind)),
            Strategy::PassThrough => ValueView::PassThrough(Seq::empty()),
            Strategy::Boolean => ValueView::Boolean(false),
            Strategy::Sequence => ValueView::Sequence(Seq::empty()),
            Strategy::Optional => ValueView::Optional(None),
        }
    }
}

impl View for Value {
    type V = ValueView;

    open spec fn view(&self) -> ValueView {
        match self {
            Value::Stringify(s) => ValueView::Stringify(s@),
            Value::PassThrough(s) => ValueView::PassThrough(s@),
            Value::Boolean(b) => ValueView::Boolean(*b),
            Value::Sequence(list) => ValueView::Sequence(scalar_views(list@)),
            Value::Optional(value) => ValueView::Optional(optional_view(*value)),
        }
    }
}

/// Whether two lists of scalars hold the same, element by element.
fn same_scalars(a: &Vec<Scalar>, b: &Vec<Scalar>) -> (same: bool)
    ensures
        same == (scalar_views(a@) == scalar_views(b@)),
{
    if a.len() != b.len() {
        assert(scalar_views(a@).len() != scalar_views(b@).len());
        return false;
    }
    let mut i: usize = 0;
    while i < a.len()
        invariant
            i <= a.len(),
            a.len() == b.len(),
            forall|k: int| 0 <= k < i ==> a@[k]@ == b@[k]@,
        decreases a.len() - i,
    {
        if a[i] != b[i] {
            assert(scalar_views(a@)[i as int] != scalar_views(b@)[i as int]);
            return false;
        }
        i += 1;
    }
    assert(scalar_views(a@) =~= scalar_views(b@));
    true
}

impl PartialEq for Value {
    /// Two values are equal where they are encoded by one strategy and hold
    /// the same.
    fn eq(&self, other: &Value) -> (equal: bool) {
        match (self, other) {
            (Value::Stringify(a), Value::Stringify(b)) => *a == *b,
            (Value::PassThrough(a), Value::PassThrough(b)) => *a == *b,
            (Value::Boolean(a), Value::Boolean(b)) => *a == *b,
            (Value::Sequence(a), Value::Sequence(b)) => same_scalars(a, b),
            (Value::Optional(a), Value::Optional(b)) => match (a, b) {
                (Some(x), Some(y)) => *x == *y,
                (None, None) => true,
                _ => false,
            },
            _ => false,
        }
    }
}

impl PartialEqSpecImpl for Value {
    open spec fn obeys_eq_spec() -> bool {
        true
    }

    open spec fn eq_spec(&self, other: &Value) -> bool {
        self@ == other@
    }
}

/// A copy of a list of scalars.
fn clone_scalars(list: &Vec<Scalar>) -> (copy: Vec<Scalar>)
    ensures
        scalar_views(copy@) == scalar_views(list@),
{
    let mut copy: Vec<Scalar> = Vec::new();
    let mut i: usize = 0;
    while i < list.len()
        invariant
            i <= list.len(),
            copy@.len() == i,
            forall|k: int| 0 <= k < i ==> (#[trigger] copy@[k])@ == list@[k]@,
        decreases list.len() - i,
    {
        copy.push(list[i].clone());
        i += 1;
    }
    assert(scalar_views(copy@) =~= scalar_views(list@));
    copy
}

impl Clone for Value {
    fn clone(&self) -> (copy: Value)
        ensures
            copy@ == self@,
    {
        match self {
            Value::Stringify(s) => Value::Stringify(s.clone()),
            Value::PassThrough(s) => Value::PassThrough(s.clone()),
            Value::Boolean(b) => Value::Boolean(*b),
            Value::Sequence(list) => Value::Sequence(clone_scalars(list)),
            Value::Optional(value) => match value {
                Some(s) => Value::Optional(Some(s.clone())),
                None => Value::Optional(None),
            },
        }
    }
}

impl Value {
    /// The zero value of a strategy over a type.
    pub fn zero(strategy: Strategy, kind: Kind) -> (value: Value)
        ensures
            value@ == ValueView::zero(strategy, kind),
    {
        match strategy {
            Strategy::Stringify => Value::Stringify(Scalar::zero(kind)),
            Strategy::PassThrough => Value::PassThrough(String::new()),
            Strategy::Boolean => Value::Boolean(false),
            Strategy::Sequence => {
                let list: Vec<Scalar> = Vec::new();
                assert(scalar_views(list@) =~= Seq::<ScalarView>::empty());
                Value::Sequence(list)
            },
            Strategy::Optional => Value::Optional(None),
        }
    }

    /// The strategy by which the value is encoded.
    pub fn strategy(&self) -> (strategy: Strategy)
        ensures
            strategy == self@.strategy(),
    {
        match self {
            Value::Stringify(_) => Strategy::Stringify,
            Value::PassThrough(_) => Strategy::PassThrough,
            Value::Boolean(_) => Strategy::Boolean,
            Value::Sequence(_) => Strategy::Sequence,
            Value::Optional(_) => Strategy::Optional,
        }
    }

    /// The text that stands for the value in a query string, before it is
    /// URL-encoded.
    pub fn encode(&self) -> (text: String)
        ensures
            text@ == self@.encoded(),
    {
        match self {
            Value::Stringify(s) => s.to_text(),
            Value::PassThrough(s) => s.clone(),
            Value::Boolean(b) => if *b {
                String::from_str("1")
            } else {
                String::from_str("0")
            },
            Value::Sequence(list) => encode_sequence(list),
            Value::Optional(value) => match value {
                Some(s) => s.to_text(),
                None => String::new(),
            },
        }
    }
}

/// The string representations of the elements, joined by commas.
fn encode_sequence(list: &Vec<Scalar>) -> (text: String)
    ensures
        text@ == joined(texts(scalar_views(list@)), ","@),
{
    let ghost all = texts(scalar_views(list@));
    let mut out = String::new();
    let mut i: usize = 0;
    while i < list.len()
        invariant
            i <= list.len(),
            all == texts(scalar_views(list@)),
            out@ == joined(all.take(i as int), ","@),
        decreases list.len() - i,
    {
        let ghost before = all.take(i as int);
        let ghost after = all.take(i + 1);
        assert(after.drop_last() =~= before);
        assert(after.last() == list@[i as int]@.text());
        if i > 0 {
            out.append(",");
        }
        let part = list[i].to_text();
        out.append(part.as_str());
        assert(out@ =~= joined(after, ","@));
        i += 1;
    }
    assert(all.take(list.len() as int) =~= all);
    out
}

/// A truth value is never encoded as the empty text: true is `1` and false
/// is `0`.
pub proof fn lemma_boolean_is_not_empty(flag: bool)
    ensures
        ValueView::Boolean(flag).encoded().len() == 1,
        ValueView::Boolean(true).encoded() == seq!['1'],
        ValueView::Boolean(false).encoded() == seq!['0'],
{
    reveal_strlit("1");
    reveal_strlit("0");
    assert("1"@ =~= seq!['1']);
    assert("0"@ =~= seq!['0']);
}

/// A number is never encoded as the empty text.
pub proof fn lemma_number_is_not_empty(i: int)
    ensures
        decimal(i).len() > 0,
{
    if i < 0 {
    } else {
        crate::text::lemma_numeral_is_not_empty(i as nat);
    }
}

/// A missing value, an empty sequence and an empty text are encoded as the
/// empty text.
pub proof fn lemma_empty_encodings()
    ensures
        ValueView::Optional(None).encoded().len() == 0,
        ValueView::Sequence(Seq::empty()).encoded().len() == 0,
        ValueView::PassThrough(Seq::empty()).encoded().len() == 0,
        ValueView::Stringify(ScalarView::Text(Seq::empty())).encoded().len() == 0,
{
    assert(texts(Seq::<ScalarView>::empty()) =~= Seq::<Seq<char>>::empty());
}

impl From<i64> for Scalar {
    fn from(number: i64) -> (scalar: Scalar)
        ensures
            scalar@ == ScalarView::Int(number),
    {
        Scalar::Int(number)
    }
}

impl FromSpecImpl<i64> for Scalar {
    open spec fn obeys_from_spec() -> bool {
        true
    }

    open spec fn from_spec(number: i64) -> Scalar {
        Scalar::Int(number)
    }
}

impl From<u64> for Scalar {
    fn from(number: u64) -> (scalar: Scalar)
        ensures
            scalar@ == ScalarView::Uint(number),
    {
        Scalar::Uint(number)
    }
}

impl FromSpecImpl<u64> for Scalar {
    open spec fn obeys_from_spec() -> bool {
        true
    }

    open spec fn from_spec(number: u64) -> Scalar {
        Scalar::Uint(number)
    }
}

impl From<String> for Scalar {
    fn from(text: String) -> (scalar: Scalar)
        ensures
            scalar@ == ScalarView::Text(text@),
    {
        Scalar::Text(text)
    }
}

impl FromSpecImpl<String> for Scalar {
    open spec fn obeys_from_spec() -> bool {
        true
    }

    open spec fn from_spec(text: String) -> Scalar {
        Scalar::Text(text)
    }
}

impl From<bool> for Value {
    /// A truth value is encoded by the boolean strategy.
    fn from(flag: bool) -> (value: Value)
        ensures
            value@ == ValueView::Boolean(flag),
    {
        Value::Boolean(flag)
    }
}

impl FromSpecImpl<bool> for Value {
    open spec fn obeys_from_spec() -> bool {
        true
    }

    open spec fn from_spec(flag: bool) -> Value {
        Value::Boolean(flag)
    }
}

impl From<Scalar> for Value {
    /// A scalar is encoded by its string representation.
    fn from(scalar: Scalar) -> (value: Value)
        ensures
            value@ == ValueView::Stringify(scalar@),
    {
        Value::Stringify(scalar)
    }
}

impl FromSpecImpl<Scalar> for Value {
    open spec fn obeys_from_spec() -> bool {
        true
    }

    open spec fn from_spec(scalar: Scalar) -> Value {
        Value::Stringify(scalar)
    }
}

impl From<Vec<Scalar>> for Value {
    /// A list is encoded by the sequence strategy.
    fn from(list: Vec<Scalar>) -> (value: Value)
        ensures
            value@ == ValueView::Sequence(scalar_views(list@)),
    {
        Value::Sequence(list)
    }
}

impl FromSpecImpl<Vec<Scalar>> for Value {
    open spec fn obeys_from_spec() -> bool {
        true
    }

    open spec fn from_spec(list: Vec<Scalar>) -> Value {
        Value::Sequence(list)
    }
}

impl From<Option<Scalar>> for Value {
    /// A value that may be missing is encoded by the optional strategy.
    fn from(scalar: Option<Scalar>) -> (value: Value)
        ensures
            value@ == ValueView::Optional(optional_view(scalar)),
    {
        Value::Optional(scalar)
    }
}

impl FromSpecImpl<Option<Scalar>> for Value {
    open spec fn obeys_from_spec() -> bool {
        true
    }

    open spec fn from_spec(scalar: Option<Scalar>) -> Value {
        Value::Optional(scalar)
    }
}

} // verus!
