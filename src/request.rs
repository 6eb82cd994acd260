//! Requests and the text frames that carry them.

use vstd::prelude::*;
use vstd::string::*;
use crate::command::{Command, set_params, set_subject};
use crate::message::ECPMessage;
use crate::query::{Get, get_params, get_subject};
use crate::text::{decimal, decimal_of};

verus! {

/// A parameter as a mathematical value: key and value.
pub type ParamView = (Seq<char>, Seq<char>);

/// A request, built step by step.
pub struct Request {
    subject: String,
    request_id: i32,
    params: Vec<(String, String)>,
}

pub struct RequestView {
    pub subject: Seq<char>,
    pub request_id: i32,
    pub params: Seq<ParamView>,
}

pub open spec fn params_view(p: Seq<(String, String)>) -> Seq<ParamView> {
    p.map_values(|e: (String, String)| (e.0@, e.1@))
}

impl View for Request {
    type V = RequestView;

    closed spec fn view(&self) -> RequestView {
        RequestView {
            subject: self.subject@,
            request_id: self.request_id,
            params: params_view(self.params@),
        }
    }
}

/// No key occurs twice.
pub open spec fn keys_unique(p: Seq<ParamView>) -> bool {
    forall|i: int, j: int| 0 <= i < j < p.len() ==> #[trigger] p[i].0 != #[trigger] p[j].0
}

/// The parameters with `key` set to `value`: the entry of that key takes the
/// new value, or, where there is none, the pair comes last.
pub open spec fn with_param(p: Seq<ParamView>, key: Seq<char>, value: Seq<char>) -> Seq<ParamView>
    decreases p.len(),
{
    if p.len() == 0 {
        seq![(key, value)]
    } else if p[0].0 == key {
        p.update(0, (key, value))
    } else {
        seq![p[0]] + with_param(p.drop_first(), key, value)
    }
}

/// The parameters that setting each pair in turn gives, from none.
pub open spec fn params_from(pairs: Seq<ParamView>) -> Seq<ParamView>
    decreases pairs.len(),
{
    if pairs.len() == 0 {
        Seq::empty()
    } else {
        with_param(params_from(pairs.drop_last()), pairs.last().0, pairs.last().1)
    }
}

pub const REQUEST_OPEN: &'static str = "{\"request\":\"";

pub const SUBJECT_CLOSE: &'static str = "\",";

pub const PARAM_OPEN: &'static str = "\"";

pub const PARAM_SEPARATOR: &'static str = "\":\"";

pub const PARAM_CLOSE: &'static str = "\",";

pub const REQUEST_ID_OPEN: &'static str = "\"request-id\":\"";

pub const REQUEST_CLOSE: &'static str = "\"}";

/// The parameters as they stand in a request frame, each as `"key":"value",`.
pub open spec fn params_text(p: Seq<ParamView>) -> Seq<char>
    decreases p.len(),
{
    if p.len() == 0 {
        Seq::empty()
    } else {
        params_text(p.drop_last()) + PARAM_OPEN@ + p.last().0 + PARAM_SEPARATOR@ + p.last().1
            + PARAM_CLOSE@
    }
}

/// The text of the frame that carries a request:
/// `{"request":"<subject>","<key>":"<value>",...,"request-id":"<id>"}`.
pub open spec fn request_text(r: RequestView) -> Seq<char> {
    REQUEST_OPEN@ + r.subject + SUBJECT_CLOSE@ + params_text(r.params) + REQUEST_ID_OPEN@
        + decimal_of(r.request_id as int) + REQUEST_CLOSE@
}

/// Setting a parameter keeps keys unique, and adds no key but its own.
pub proof fn lemma_with_param_unique(p: Seq<ParamView>, key: Seq<char>, value: Seq<char>)
    requires
        keys_unique(p),
    ensures
        keys_unique(with_param(p, key, value)),
        forall|i: int|
            0 <= i < with_param(p, key, value).len() ==> #[trigger] with_param(p, key, value)[i].0
                == key || exists|j: int| 0 <= j < p.len() && p[j].0 == with_param(p, key, value)[i].0,
    decreases p.len(),
{
    let r = with_param(p, key, value);
    if p.len() == 0 {
    } else if p[0].0 == key {
        assert forall|i: int| 0 <= i < r.len() implies #[trigger] r[i].0 == key || exists|j: int|
            0 <= j < p.len() && p[j].0 == r[i].0 by {
            if i > 0 {
                assert(p[i].0 == r[i].0);
            }
        }
    } else {
        let q = p.drop_first();
        assert forall|a: int, b: int| 0 <= a < b < q.len() implies #[trigger] q[a].0 != #[trigger] q[b].0 by {
            assert(q[a] == p[a + 1] && q[b] == p[b + 1]);
        }
        lemma_with_param_unique(q, key, value);
        let t = with_param(q, key, value);
        assert(r == seq![p[0]] + t);
        assert forall|i: int| 0 <= i < r.len() implies #[trigger] r[i].0 == key || exists|j: int|
            0 <= j < p.len() && p[j].0 == r[i].0 by {
            if i == 0 {
                assert(p[0].0 == r[0].0);
            } else {
                assert(r[i] == t[i - 1]);
                if t[i - 1].0 != key {
                    let j = choose|j: int| 0 <= j < q.len() && q[j].0 == t[i - 1].0;
                    assert(p[j + 1].0 == r[i].0);
                }
            }
        }
        assert forall|a: int, b: int| 0 <= a < b < r.len() implies #[trigger] r[a].0 != #[trigger] r[b].0 by {
            if a == 0 {
                assert(r[b] == t[b - 1]);
                if t[b - 1].0 != key {
                    let j = choose|j: int| 0 <= j < q.len() && q[j].0 == t[b - 1].0;
                    assert(q[j] == p[j + 1]);
                }
            } else {
                assert(r[a] == t[a - 1] && r[b] == t[b - 1]);
            }
        }
    }
}

/// The parameters that setting pairs in turn gives have unique keys.
pub proof fn lemma_params_from_unique(pairs: Seq<ParamView>)
    ensures
        keys_unique(params_from(pairs)),
    decreases pairs.len(),
{
    if pairs.len() > 0 {
        lemma_params_from_unique(pairs.drop_last());
        lemma_with_param_unique(params_from(pairs.drop_last()), pairs.last().0, pairs.last().1);
    }
}

proof fn lemma_with_param_found(p: Seq<ParamView>, key: Seq<char>, value: Seq<char>, j: int)
    requires
        0 <= j < p.len(),
        p[j].0 == key,
        forall|i: int| 0 <= i < j ==> p[i].0 != key,
    ensures
        with_param(p, key, value) == p.update(j, (key, value)),
    decreases p.len(),
{
    if j > 0 {
        let q = p.drop_first();
        assert forall|i: int| 0 <= i < j - 1 implies q[i].0 != key by {
            assert(q[i] == p[i + 1]);
        }
        lemma_with_param_found(q, key, value, j - 1);
        assert(seq![p[0]] + q.update(j - 1, (key, value)) =~= p.update(j, (key, value)));
    }
}

proof fn lemma_with_param_absent(p: Seq<ParamView>, key: Seq<char>, value: Seq<char>)
    requires
        forall|i: int| 0 <= i < p.len() ==> p[i].0 != key,
    ensures
        with_param(p, key, value) == p.push((key, value)),
    decreases p.len(),
{
    if p.len() > 0 {
        let q = p.drop_first();
        assert forall|i: int| 0 <= i < q.len() implies q[i].0 != key by {
            assert(q[i] == p[i + 1]);
        }
        lemma_with_param_absent(q, key, value);
        assert(seq![p[0]] + q.push((key, value)) =~= p.push((key, value)));
    }
}

impl Request {
    /// A request with an empty subject, request id 0 and no parameters.
    pub fn new() -> (r: Self)
        ensures
            r@.subject == Seq::<char>::empty(),
            r@.request_id == 0,
            r@.params == Seq::<ParamView>::empty(),
    {
        let r = Request { subject: String::new(), request_id: 0, params: Vec::new() };
        assert(r@.params =~= Seq::<ParamView>::empty());
        r
    }

    /// Set the request id.
    pub fn set_request_id(self, id: i32) -> (r: Self)
        ensures
            r@ == (RequestView { request_id: id, ..self@ }),
    {
        Request { request_id: id, ..self }
    }

    /// Set the subject.
    pub fn set_subject(self, subject: &str) -> (r: Self)
        ensures
            r@ == (RequestView { subject: subject@, ..self@ }),
    {
        Request { subject: String::from_str(subject), ..self }
    }

    fn insert_param(&mut self, key: String, value: String)
        ensures
            final(self)@ == (RequestView {
                params: with_param(old(self)@.params, key@, value@),
                ..old(self)@
            }),
    {
        let ghost p = self@.params;
        let mut j: usize = 0;
        while j < self.params.len()
            invariant
                self@ == old(self)@,
                p == old(self)@.params,
                j <= p.len(),
                forall|i: int| 0 <= i < j ==> p[i].0 != key@,
            decreases p.len() - j,
        {
            if self.params[j].0 == key {
                proof {
                    lemma_with_param_found(p, key@, value@, j as int);
                }
                self.params.set(j, (key, value));
                assert(params_view(self.params@) =~= p.update(j as int, (key@, value@)));
                return;
            }
            j += 1;
        }
        proof {
            lemma_with_param_absent(p, key@, value@);
        }
        self.params.push((key, value));
        assert(params_view(self.params@) =~= p.push((key@, value@)));
    }

    /// Add a key/value parameter; a key that is there already takes the new value.
    pub fn add_param(self, key: &str, value: &str) -> (r: Self)
        ensures
            r@ == (RequestView { params: with_param(self@.params, key@, value@), ..self@ }),
            keys_unique(self@.params) ==> keys_unique(r@.params),
    {
        proof {
            if keys_unique(self@.params) {
                lemma_with_param_unique(self@.params, key@, value@);
            }
        }
        let mut r = self;
        r.insert_param(String::from_str(key), String::from_str(value));
        r
    }

    /// Replace the parameters, where some are given, by those pairs set in turn.
    pub fn set_params(self, params: Option<Vec<(String, String)>>) -> (r: Request)
        ensures
            r@ == match params {
                Some(v) => RequestView { params: params_from(params_view(v@)), ..self@ },
                None => self@,
            },
            params is Some ==> keys_unique(r@.params),
    {
        match params {
            None => self,
            Some(pairs) => {
                let mut r = Request { params: Vec::new(), ..self };
                let ghost pv = params_view(pairs@);
                assert(params_view(r.params@) =~= params_from(pv.subrange(0, 0)));
                let mut i: usize = 0;
                while i < pairs.len()
                    invariant
                        pv == params_view(pairs@),
                        i <= pairs@.len(),
                        r@ == (RequestView { params: params_from(pv.subrange(0, i as int)), ..self@ }),
                    decreases pairs@.len() - i,
                {
                    let key = pairs[i].0.clone();
                    let value = pairs[i].1.clone();
                    r.insert_param(key, value);
                    assert(pv.subrange(0, i + 1).drop_last() =~= pv.subrange(0, i as int));
                    i += 1;
                }
                assert(pv.subrange(0, pairs@.len() as int) =~= pv);
                proof {
                    lemma_params_from_unique(pv);
                }
                r
            },
        }
    }

    /// The request that a query makes, with request id 0.
    pub fn from_query(get: Get) -> (r: Request)
        ensures
            r@.subject == get_subject(get),
            r@.request_id == 0,
            r@.params == match get_params(get) {
                Some(p) => params_from(p),
                None => Seq::<ParamView>::empty(),
            },
    {
        Request::new().set_subject(get.subject()).set_params(get.params())
    }

    /// The request that a command makes, with request id 0.
    pub fn from_command(command: Command) -> (r: Request)
        ensures
            r@.subject == set_subject(command),
            r@.request_id == 0,
            r@.params == match set_params(command) {
                Some(p) => params_from(p),
                None => Seq::<ParamView>::empty(),
            },
    {
        Request::new().set_subject(command.subject()).set_params(command.params())
    }

    /// The frame text of the request.
    pub fn build(&self) -> (r: ECPMessage)
        ensures
            r matches ECPMessage::Text { text } && text@ == request_text(self@),
    {
        let mut params = String::new();
        let mut i: usize = 0;
        while i < self.params.len()
            invariant
                i <= self.params@.len(),
                params@ == params_text(params_view(self.params@).subrange(0, i as int)),
            decreases self.params@.len() - i,
        {
            params.append(PARAM_OPEN);
            params.append(self.params[i].0.as_str());
            params.append(PARAM_SEPARATOR);
            params.append(self.params[i].1.as_str());
            params.append(PARAM_CLOSE);
            assert(params_view(self.params@).subrange(0, i + 1).drop_last() =~= params_view(
                self.params@,
            ).subrange(0, i as int));
            i += 1;
        }
        assert(params_view(self.params@).subrange(0, self.params@.len() as int) =~= params_view(
            self.params@,
        ));
        let mut text = String::from_str(REQUEST_OPEN);
        text.append(self.subject.as_str());
        text.append(SUBJECT_CLOSE);
        text.append(params.as_str());
        text.append(REQUEST_ID_OPEN);
        text.append(decimal(self.request_id).as_str());
        text.append(REQUEST_CLOSE);
        ECPMessage::Text { text }
    }
}

impl From<Get> for Request {
    fn from(get: Get) -> Self {
        Request::from_query(get)
    }
}

impl vstd::std_specs::convert::FromSpecImpl<Get> for Request {
    open spec fn obeys_from_spec() -> bool {
        false
    }

    open spec fn from_spec(v: Get) -> Self {
        arbitrary()
    }
}

impl From<Command> for Request {
    fn from(command: Command) -> Self {
        Request::from_command(command)
    }
}

impl vstd::std_specs::convert::FromSpecImpl<Command> for Request {
    open spec fn obeys_from_spec() -> bool {
        false
    }

    open spec fn from_spec(v: Command) -> Self {
        arbitrary()
    }
}

} // verus!
