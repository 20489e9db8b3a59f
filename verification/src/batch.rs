//! [`Batch`]

use vstd::prelude::*;
use serde_json::Value;

use crate::json::clone_value;
use crate::rpc::MethodName;

verus! {

/// A group of one or more RPC calls to be sent as a single batch.
#[derive(Debug)]
pub struct Batch {
    /// List of method names and associated params
    calls: Vec<(String, Vec<Value>)>,
}

/// A call as the contracts see it: the method name and the parameters.
pub open spec fn call_view(call: (String, Vec<Value>)) -> (Seq<char>, Seq<Value>) {
    (call.0@, call.1@)
}

impl View for Batch {
    type V = Seq<(Seq<char>, Seq<Value>)>;

    /// The calls of the batch, in order: each a method name and its parameters.
    closed spec fn view(&self) -> Seq<(Seq<char>, Seq<Value>)> {
        self.calls@.map_values(|c: (String, Vec<Value>)| call_view(c))
    }
}

impl Clone for Batch {
    /// A copy of the batch: the same calls.
    fn clone(&self) -> (b: Self)
        ensures
            b@ == self@,
    {
        proof {
            use_type_invariant(self);
        }
        let mut calls: Vec<(String, Vec<Value>)> = Vec::new();
        let n = self.calls.len();
        for i in 0..n
            invariant
                n == self.calls@.len(),
                calls@.len() == i,
                forall|h: int| 0 <= h < i ==> call_view(#[trigger] calls@[h]) == call_view(self.calls@[h]),
        {
            let call = &self.calls[i];
            calls.push((call.0.clone(), clone_params(&call.1)));
        }
        let b = Batch { calls };
        assert(b@ =~= self@);
        b
    }
}

/// A copy of a list of parameters.
fn clone_params(params: &Vec<Value>) -> (r: Vec<Value>)
    ensures
        r@ == params@,
{
    let mut r: Vec<Value> = Vec::new();
    for i in 0..params.len()
        invariant
            r@ == params@.take(i as int),
    {
        r.push(clone_value(&params[i]));
        assert(r@ =~= params@.take(i + 1));
    }
    assert(r@ =~= params@);
    r
}

impl Batch {
    /// A batch can't be empty.
    #[verifier::type_invariant]
    spec fn not_empty(self) -> bool {
        self.calls@.len() > 0
    }

    /// Create a new [`Batch`] containing the first call.
    ///
    /// `method` accepts a variant of [`Rpc`](crate::Rpc) or a method name string.
    pub fn new<M: MethodName>(method: M, params: Vec<Value>) -> (b: Self)
        ensures
            b@ == seq![(method.method_name(), params@)],
    {
        let b = Batch { calls: vec![(method.into_method(), params)] };
        assert(b@ =~= seq![(method.method_name(), params@)]);
        b
    }

    /// Create a new [`Batch`] from a list of `(method, params)`, or `None`
    /// where the list is empty.
    pub fn from_calls<M: MethodName>(calls: Vec<(M, Vec<Value>)>) -> (b: Option<Self>)
        ensures
            calls@.len() == 0 <==> b is None,
            b matches Some(b) ==> b@ == Seq::new(
                calls@.len(),
                |i: int| (calls@[i].0.method_name(), calls@[i].1@),
            ),
    {
        let ghost given = calls@;
        let mut batch: Option<Batch> = None;
        for call in it: calls
            invariant
                given == it.seq(),
                it.index() == 0 <==> batch is None,
                batch matches Some(b) ==> b@ == Seq::new(
                    it.index() as nat,
                    |i: int| (given[i].0.method_name(), given[i].1@),
                ),
        {
            let (method, params) = call;
            match batch {
                None => {
                    let b = Batch::new(method, params);
                    assert(b@ =~= Seq::new(1, |i: int| (given[i].0.method_name(), given[i].1@)));
                    batch = Some(b);
                },
                Some(mut b) => {
                    b.push(method, params);
                    assert(b@ =~= Seq::new(
                        (it.index() + 1) as nat,
                        |i: int| (given[i].0.method_name(), given[i].1@),
                    ));
                    batch = Some(b);
                },
            }
        }
        batch
    }

    /// Add a call to this batch
    pub fn push<M: MethodName>(&mut self, method: M, params: Vec<Value>)
        ensures
            final(self)@ == old(self)@.push((method.method_name(), params@)),
    {
        let call = (method.into_method(), params);
        // The calls are taken out to be extended, and a one-call stand-in
        // keeps the batch non-empty meanwhile.
        let mut calls: Vec<(String, Vec<Value>)> = vec![(String::new(), Vec::new())];
        std::mem::swap(&mut calls, &mut self.calls);
        calls.push(call);
        self.calls = calls;
        assert(self@ =~= old(self)@.push((method.method_name(), params@)));
    }

    /// Returns the count of calls in this batch
    #[allow(clippy::len_without_is_empty)]  // Batches can't be empty
    pub fn len(&self) -> (n: usize)
        ensures
            n == self@.len(),
            n > 0,
    {
        proof {
            use_type_invariant(self);
        }
        self.calls.len()
    }

    /// The calls in this batch, in order.
    pub fn calls(&self) -> (v: Vec<(&str, &[Value])>)
        ensures
            v@.len() == self@.len(),
            forall|i: int|
                0 <= i < v@.len() ==> (#[trigger] v@[i]).0@ == self@[i].0 && v@[i].1@
                    == self@[i].1,
    {
        let mut v: Vec<(&str, &[Value])> = Vec::new();
        let n = self.calls.len();
        for i in 0..n
            invariant
                n == self.calls@.len(),
                v@.len() == i,
                forall|h: int|
                    0 <= h < i ==> (#[trigger] v@[h]).0@ == self@[h].0 && v@[h].1@ == self@[h].1,
        {
            let call = &self.calls[i];
            v.push((call.0.as_str(), call.1.as_slice()));
        }
        v
    }
}

} // verus!
