//! The declarative description of an API request, and the query string that
//! it is sent as.

use crate::permissions::Permissions;
use crate::query::{form_urlencode, pair_views, query_of};
use crate::value::{Value, ValueView};
use vstd::prelude::*;
use vstd::std_specs::cmp::PartialEqSpecImpl;

verus! {

/// One declared parameter of a request: its name, its value with the
/// strategy that encodes it, and whether it is required.
///
/// A required parameter gets its value when the request is made and keeps
/// it. An optional one starts with its default and can be set later.
#[derive(Debug, Eq)]
pub struct Param {
    name: String,
    value: Value,
    required: bool,
}

/// The mathematical content of a [`Param`].
pub struct ParamView {
    pub name: Seq<char>,
    pub value: ValueView,
    pub required: bool,
}

impl ParamView {
    /// Whether setting `name` to `value` changes this parameter: it does so
    /// where the parameter is optional, has that name and is encoded by the
    /// strategy of `value`.
    pub open spec fn accepts(self, name: Seq<char>, value: ValueView) -> bool {
        !self.required && self.name == name && self.value.strategy() == value.strategy()
    }

    /// This parameter after `name` was set to `value`.
    pub open spec fn updated(self, name: Seq<char>, value: ValueView) -> ParamView {
        if self.accepts(name, value) {
            ParamView { name: self.name, value, required: self.required }
        } else {
            self
        }
    }

    /// The name of the parameter and the text that stands for its value.
    pub open spec fn pair(self) -> (Seq<char>, Seq<char>) {
        (self.name, self.value.encoded())
    }
}

impl View for Param {
    type V = ParamView;

    closed spec fn view(&self) -> ParamView {
        ParamView { name: self.name@, value: self.value@, required: self.required }
    }
}

impl PartialEq for Param {
    /// Two parameters are equal where name, value and requiredness agree.
    fn eq(&self, other: &Param) -> (equal: bool) {
        self.name == other.name && self.value == other.value && self.required == other.required
    }
}

impl PartialEqSpecImpl for Param {
    open spec fn obeys_eq_spec() -> bool {
        true
    }

    open spec fn eq_spec(&self, other: &Param) -> bool {
        self@ == other@
    }
}

impl Clone for Param {
    fn clone(&self) -> (copy: Param)
        ensures
            copy@ == self@,
    {
        Param { name: self.name.clone(), value: self.value.clone(), required: self.required }
    }
}

impl Param {
    /// The name of the parameter.
    pub fn name(&self) -> (name: &str)
        ensures
            name@ == self@.name,
    {
        self.name.as_str()
    }

    /// The value of the parameter.
    pub fn value(&self) -> (value: &Value)
        ensures
            value@ == self@.value,
    {
        &self.value
    }

    /// Whether the parameter is required.
    pub fn is_required(&self) -> (required: bool)
        ensures
            required == self@.required,
    {
        self.required
    }
}

/// The views of a sequence of parameters.
pub open spec fn param_views(params: Seq<Param>) -> Seq<ParamView> {
    params.map_values(|p: Param| p@)
}

/// Whether a name and value are written to the query string: they are, unless
/// the text of the value is empty.
pub open spec fn is_sent() -> spec_fn((Seq<char>, Seq<char>)) -> bool {
    |pair: (Seq<char>, Seq<char>)| pair.1.len() > 0
}

/// The mathematical content of a [`Request`].
pub struct RequestView {
    /// The method-path identifier of the API call.
    pub method: Seq<char>,
    /// The name of the shape that the reply is decoded into.
    pub response: Seq<char>,
    /// The mask of the permissions that the call needs.
    pub permissions: i32,
    /// The declared parameters, in declaration order.
    pub params: Seq<ParamView>,
    /// The fixed parameters with their literal values, in declaration order.
    pub constants: Seq<(Seq<char>, Seq<char>)>,
}

impl RequestView {
    /// Every declared name with the text of its value: the parameters in
    /// declaration order, then the fixed parameters.
    pub open spec fn declared(self) -> Seq<(Seq<char>, Seq<char>)> {
        self.params.map_values(|p: ParamView| p.pair()) + self.constants
    }

    /// The names and values that are written to the query string: those of
    /// [`RequestView::declared`] whose value is not the empty text.
    pub open spec fn pairs(self) -> Seq<(Seq<char>, Seq<char>)> {
        self.declared().filter(is_sent())
    }

    /// The query string of the request.
    pub open spec fn query(self) -> Seq<char> {
        query_of(self.pairs())
    }

    /// The request with one more parameter declared after the others.
    pub open spec fn declare(self, name: Seq<char>, value: ValueView, required: bool) -> RequestView {
        RequestView {
            method: self.method,
            response: self.response,
            permissions: self.permissions,
            params: self.params.push(ParamView { name, value, required }),
            constants: self.constants,
        }
    }

    /// The request with one more fixed parameter declared after the others.
    pub open spec fn fix(self, name: Seq<char>, value: Seq<char>) -> RequestView {
        RequestView {
            method: self.method,
            response: self.response,
            permissions: self.permissions,
            params: self.params,
            constants: self.constants.push((name, value)),
        }
    }

    /// The request after `name` was set to `value`: every parameter that
    /// accepts the value holds it, and nothing else has changed.
    pub open spec fn set(self, name: Seq<char>, value: ValueView) -> RequestView {
        RequestView {
            method: self.method,
            response: self.response,
            permissions: self.permissions,
            params: self.params.map_values(|p: ParamView| p.updated(name, value)),
            constants: self.constants,
        }
    }
}

/// An API request: the method it calls, the shape of its reply, the
/// permissions it needs, and its parameters.
#[derive(Debug, Eq)]
pub struct Request {
    method: String,
    response: String,
    permissions: Permissions,
    params: Vec<Param>,
    constants: Vec<(String, String)>,
}

impl View for Request {
    type V = RequestView;

    closed spec fn view(&self) -> RequestView {
        RequestView {
            method: self.method@,
            response: self.response@,
            permissions: self.permissions@,
            params: param_views(self.params@),
            constants: pair_views(self.constants@),
        }
    }
}

/// Whether two lists of parameters hold the same, element by element.
fn same_params(a: &Vec<Param>, b: &Vec<Param>) -> (same: bool)
    ensures
        same == (param_views(a@) == param_views(b@)),
{
    if a.len() != b.len() {
        assert(param_views(a@).len() != param_views(b@).len());
        return false;
    }
    let mut i: usize = 0;
    while i < a.len()
        invariant
            i <= a.len(),
            a.len() == b.len(),
            forall|k: int| 0 <= k < i ==> a@[k]@ == b@[k]@,
        decreases a.len() - i,
    {
        if a[i] != b[i] {
            assert(param_views(a@)[i as int] != param_views(b@)[i as int]);
            return false;
        }
        i += 1;
    }
    assert(param_views(a@) =~= param_views(b@));
    true
}

/// Whether two lists of names and values hold the same, element by element.
fn same_pairs(a: &Vec<(String, String)>, b: &Vec<(String, String)>) -> (same: bool)
    ensures
        same == (pair_views(a@) == pair_views(b@)),
{
    if a.len() != b.len() {
        assert(pair_views(a@).len() != pair_views(b@).len());
        return false;
    }
    let mut i: usize = 0;
    while i < a.len()
        invariant
            i <= a.len(),
            a.len() == b.len(),
            forall|k: int| 0 <= k < i ==> a@[k].0@ == b@[k].0@ && a@[k].1@ == b@[k].1@,
        decreases a.len() - i,
    {
        if a[i].0 != b[i].0 || a[i].1 != b[i].1 {
            assert(pair_views(a@)[i as int] != pair_views(b@)[i as int]);
            return false;
        }
        i += 1;
    }
    assert(pair_views(a@) =~= pair_views(b@));
    true
}

impl PartialEq for Request {
    /// Two requests are equal where they agree in method, reply, permissions
    /// and every declared parameter.
    fn eq(&self, other: &Request) -> (equal: bool) {
        self.method == other.method && self.response == other.response
            && self.permissions.to_int() == other.permissions.to_int() && same_params(
            &self.params,
            &other.params,
        ) && same_pairs(&self.constants, &other.constants)
    }
}

impl PartialEqSpecImpl for Request {
    open spec fn obeys_eq_spec() -> bool {
        true
    }

    open spec fn eq_spec(&self, other: &Request) -> bool {
        self@ == other@
    }
}

/// A copy of a list of parameters.
fn clone_params(params: &Vec<Param>) -> (copy: Vec<Param>)
    ensures
        param_views(copy@) == param_views(params@),
{
    let mut copy: Vec<Param> = Vec::new();
    let mut i: usize = 0;
    while i < params.len()
        invariant
            i <= params.len(),
            copy@.len() == i,
            forall|k: int| 0 <= k < i ==> (#[trigger] copy@[k])@ == params@[k]@,
        decreases params.len() - i,
    {
        copy.push(params[i].clone());
        i += 1;
    }
    assert(param_views(copy@) =~= param_views(params@));
    copy
}

/// A copy of a list of names and values.
fn clone_pairs(pairs: &Vec<(String, String)>) -> (copy: Vec<(String, String)>)
    ensures
        pair_views(copy@) == pair_views(pairs@),
{
    let mut copy: Vec<(String, String)> = Vec::new();
    let mut i: usize = 0;
    while i < pairs.len()
        invariant
            i <= pairs.len(),
            copy@.len() == i,
            forall|k: int|
                0 <= k < i ==> (#[trigger] copy@[k]).0@ == pairs@[k].0@ && copy@[k].1@
                    == pairs@[k].1@,
        decreases pairs.len() - i,
    {
        copy.push((pairs[i].0.clone(), pairs[i].1.clone()));
        i += 1;
    }
    assert(pair_views(copy@) =~= pair_views(pairs@));
    copy
}

impl Clone for Request {
    fn clone(&self) -> (copy: Request)
        ensures
            copy@ == self@,
    {
        Request {
            method: self.method.clone(),
            response: self.response.clone(),
            permissions: self.permissions,
            params: clone_params(&self.params),
            constants: clone_pairs(&self.constants),
        }
    }
}

impl Request {
    /// A request for the method `method` whose reply has the shape named
    /// `response` and which needs `permissions`. It has no parameters yet.
    pub fn new(method: &str, response: &str, permissions: Permissions) -> (request: Request)
        ensures
            request@ == (RequestView {
                method: method@,
                response: response@,
                permissions: permissions@,
                params: Seq::empty(),
                constants: Seq::empty(),
            }),
    {
        let request = Request {
            method: method.to_owned(),
            response: response.to_owned(),
            permissions,
            params: Vec::new(),
            constants: Vec::new(),
        };
        assert(param_views(request.params@) =~= Seq::<ParamView>::empty());
        assert(pair_views(request.constants@) =~= Seq::<(Seq<char>, Seq<char>)>::empty());
        request
    }

    /// Declares a required parameter with the value it will keep.
    pub fn required(self, name: &str, value: Value) -> (request: Request)
        ensures
            request@ == self@.declare(name@, value@, true),
    {
        self.declare(name, value, true)
    }

    /// Declares an optional parameter with its default value.
    pub fn optional(self, name: &str, default: Value) -> (request: Request)
        ensures
            request@ == self@.declare(name@, default@, false),
    {
        self.declare(name, default, false)
    }

    fn declare(self, name: &str, value: Value, required: bool) -> (request: Request)
        ensures
            request@ == self@.declare(name@, value@, required),
    {
        let mut request = self;
        let ghost before = request.params@;
        request.params.push(Param { name: name.to_owned(), value, required });
        assert(param_views(request.params@) =~= param_views(before).push(
            ParamView { name: name@, value: value@, required },
        ));
        request
    }

    /// Declares a fixed parameter with its literal value.
    pub fn constant(self, name: &str, value: &str) -> (request: Request)
        ensures
            request@ == self@.fix(name@, value@),
    {
        let mut request = self;
        let ghost before = request.constants@;
        request.constants.push((name.to_owned(), value.to_owned()));
        assert(pair_views(request.constants@) =~= pair_views(before).push((name@, value@)));
        request
    }

    /// Sets the optional parameter `name` to `value`, and hands the request
    /// back so that calls can be chained.
    ///
    /// The value goes to every optional parameter of that name that is
    /// encoded by the strategy of the value. Where there is none, the request
    /// stays as it is.
    pub fn set(&mut self, name: &str, value: Value) -> (request: &mut Request)
        ensures
            request@ == old(self)@.set(name@, value@),
            *final(self) == *final(request),
    {
        let wanted = name.to_owned();
        let strategy = value.strategy();
        let ghost start = param_views(self.params@);
        let mut i: usize = 0;
        while i < self.params.len()
            invariant
                i <= self.params.len(),
                wanted@ == name@,
                strategy == value@.strategy(),
                self.params@.len() == start.len(),
                self.method == old(self).method,
                self.response == old(self).response,
                self.permissions == old(self).permissions,
                self.constants == old(self).constants,
                start == param_views(old(self).params@),
                forall|k: int|
                    0 <= k < i ==> (#[trigger] self.params@[k])@ == start[k].updated(
                        name@,
                        value@,
                    ),
                forall|k: int| i <= k < start.len() ==> (#[trigger] self.params@[k])@ == start[k],
            decreases self.params.len() - i,
        {
            let param = &self.params[i];
            if !param.required && param.name == wanted && param.value.strategy() == strategy {
                let replaced = Param { name: param.name.clone(), value: value.clone(), required: false };
                self.params.set(i, replaced);
            }
            i += 1;
        }
        assert(param_views(self.params@) =~= start.map_values(
            |p: ParamView| p.updated(name@, value@),
        ));
        self
    }

    /// The method-path identifier of the API call.
    pub fn method_name(&self) -> (method: &str)
        ensures
            method@ == self@.method,
    {
        self.method.as_str()
    }

    /// The name of the shape that the reply is decoded into.
    pub fn response_type(&self) -> (response: &str)
        ensures
            response@ == self@.response,
    {
        self.response.as_str()
    }

    /// The permissions that the call needs.
    pub fn permissions(&self) -> (permissions: Permissions)
        ensures
            permissions@ == self@.permissions,
    {
        self.permissions
    }

    /// The declared parameters, in declaration order.
    pub fn params(&self) -> (params: &[Param])
        ensures
            param_views(params@) == self@.params,
    {
        self.params.as_slice()
    }

    /// The names and values that are written to the query string, before
    /// they are URL-encoded: every declared parameter in declaration order,
    /// then the fixed ones, without those whose value is the empty text.
    pub fn pairs(&self) -> (pairs: Vec<(String, String)>)
        ensures
            pair_views(pairs@) == self@.pairs(),
    {
        let ghost declared = self@.declared();
        let ghost count = self.params@.len();
        let mut pairs: Vec<(String, String)> = Vec::new();
        assert(pair_views(pairs@) =~= declared.take(0).filter(is_sent())) by {
            reveal(Seq::filter);
        }
        let mut i: usize = 0;
        while i < self.params.len()
            invariant
                i <= self.params.len(),
                declared == self@.declared(),
                pair_views(pairs@) == declared.take(i as int).filter(is_sent()),
            decreases self.params.len() - i,
        {
            let param = &self.params[i];
            let text = param.value.encode();
            proof {
                reveal(Seq::filter);
                assert(declared.take(i + 1).drop_last() =~= declared.take(i as int));
                assert(declared[i as int] == (param.name@, text@));
            }
            if !text.as_str().is_empty() {
                let ghost before = pairs@;
                pairs.push((param.name.clone(), text));
                assert(pair_views(pairs@) =~= pair_views(before).push((param.name@, text@)));
            }
            i += 1;
        }
        let mut j: usize = 0;
        while j < self.constants.len()
            invariant
                j <= self.constants.len(),
                count == self.params@.len(),
                declared == self@.declared(),
                pair_views(pairs@) == declared.take(count + j).filter(is_sent()),
            decreases self.constants.len() - j,
        {
            let constant = &self.constants[j];
            proof {
                reveal(Seq::filter);
                assert(declared.take(count + j + 1).drop_last() =~= declared.take(count + j));
                assert(declared[count + j] == (constant.0@, constant.1@));
            }
            if !constant.1.as_str().is_empty() {
                let ghost before = pairs@;
                pairs.push((constant.0.clone(), constant.1.clone()));
                assert(pair_views(pairs@) =~= pair_views(before).push((constant.0@, constant.1@)));
            }
            j += 1;
        }
        assert(declared.take(declared.len() as int) =~= declared);
        pairs
    }

    /// The query string of the request: the names and values of
    /// [`Request::pairs`], URL-encoded and joined.
    pub fn to_query_string(&self) -> (query: String)
        ensures
            query@ == self@.query(),
    {
        let pairs = self.pairs();
        form_urlencode(&pairs)
    }
}

/// Setting two different names gives the same request in either order.
pub proof fn lemma_set_commutes(
    request: RequestView,
    a: Seq<char>,
    x: ValueView,
    b: Seq<char>,
    y: ValueView,
)
    requires
        a != b,
    ensures
        request.set(a, x).set(b, y) == request.set(b, y).set(a, x),
{
    assert(request.set(a, x).set(b, y).params =~= request.set(b, y).set(a, x).params);
}

/// Setting three different names gives the same request in every order.
pub proof fn lemma_set_order_of_three(
    request: RequestView,
    a: Seq<char>,
    x: ValueView,
    b: Seq<char>,
    y: ValueView,
    c: Seq<char>,
    z: ValueView,
)
    requires
        a != b,
        a != c,
        b != c,
    ensures
        request.set(a, x).set(b, y).set(c, z) == request.set(a, x).set(c, z).set(b, y),
        request.set(a, x).set(b, y).set(c, z) == request.set(b, y).set(a, x).set(c, z),
        request.set(a, x).set(b, y).set(c, z) == request.set(b, y).set(c, z).set(a, x),
        request.set(a, x).set(b, y).set(c, z) == request.set(c, z).set(a, x).set(b, y),
        request.set(a, x).set(b, y).set(c, z) == request.set(c, z).set(b, y).set(a, x),
{
    let first = request.set(a, x).set(b, y).set(c, z);
    assert(first.params =~= request.set(a, x).set(c, z).set(b, y).params);
    assert(first.params =~= request.set(b, y).set(a, x).set(c, z).params);
    assert(first.params =~= request.set(b, y).set(c, z).set(a, x).params);
    assert(first.params =~= request.set(c, z).set(a, x).set(b, y).params);
    assert(first.params =~= request.set(c, z).set(b, y).set(a, x).params);
}

/// Of two values that are set to one name by one strategy, the later one
/// stays.
pub proof fn lemma_set_again(request: RequestView, name: Seq<char>, x: ValueView, y: ValueView)
    requires
        x.strategy() == y.strategy(),
    ensures
        request.set(name, x).set(name, y) == request.set(name, y),
{
    assert(request.set(name, x).set(name, y).params =~= request.set(name, y).params);
}

/// Declaring an optional parameter with a default and setting it then gives
/// the request in which the parameter was declared with that value at once.
pub proof fn lemma_set_after_declare(
    request: RequestView,
    name: Seq<char>,
    default: ValueView,
    value: ValueView,
)
    requires
        default.strategy() == value.strategy(),
    ensures
        request.declare(name, default, false).set(name, value) == request.set(name, value).declare(
            name,
            value,
            false,
        ),
{
    assert(request.declare(name, default, false).set(name, value).params =~= request.set(
        name,
        value,
    ).declare(name, value, false).params);
}

/// Setting a name changes neither a required parameter nor a fixed one, nor
/// the number or the names of the parameters.
pub proof fn lemma_set_keeps(request: RequestView, name: Seq<char>, value: ValueView, i: int)
    requires
        0 <= i < request.params.len(),
    ensures
        request.set(name, value).constants == request.constants,
        request.set(name, value).params.len() == request.params.len(),
        request.set(name, value).params[i].name == request.params[i].name,
        request.set(name, value).params[i].required == request.params[i].required,
        request.params[i].required ==> request.set(name, value).params[i] == request.params[i],
{
}

/// No name goes out with an empty value, and every declared name whose value
/// is not empty goes out.
pub proof fn lemma_pairs_omit_empty(request: RequestView)
    ensures
        forall|i: int|
            0 <= i < request.pairs().len() ==> (#[trigger] request.pairs()[i]).1.len() > 0,
        forall|i: int|
            0 <= i < request.declared().len() && request.declared()[i].1.len() > 0
                ==> request.pairs().contains(#[trigger] request.declared()[i]),
        request.pairs().len() <= request.declared().len(),
{
    let declared = request.declared();
    assert forall|i: int| 0 <= i < request.pairs().len() implies (
    #[trigger] request.pairs()[i]).1.len() > 0 by {
        declared.lemma_filter_pred(is_sent(), i);
    }
    assert forall|i: int|
        0 <= i < declared.len() && declared[i].1.len() > 0 implies request.pairs().contains(
        #[trigger] declared[i],
    ) by {
        declared.lemma_filter_contains(is_sent(), i);
    }
    declared.lemma_filter_len(is_sent());
}

} // verus!
