use vstd::prelude::*;

use crate::error::Error;
use crate::message::{JudgeDiagnostic, ProviderCallReply, ProviderCallRequest};

verus! {

/// A model provider that answers provider call requests. Calls are single
/// attempts; whether to retry is for the adapter to decide.
pub trait ProviderClient: Send + Sync {
    fn call(&self, request: ProviderCallRequest) -> Result<ProviderCallReply, Error>;
}

impl<Client: ProviderClient + ?Sized> ProviderClient for Box<Client> {
    /// Hands the request to the boxed client and answers what it answers.
    fn call(&self, request: ProviderCallRequest) -> (result: Result<ProviderCallReply, Error>)
        ensures
            call_ensures(Client::call, (&**self, request), result),
    {
        (**self).call(request)
    }
}

/// A provider that answers every request with the same configured reply.
#[derive(Debug, PartialEq, Eq)]
pub struct FixtureProviderClient {
    reply: ProviderCallReply,
}

impl View for FixtureProviderClient {
    type V = (Seq<char>, Seq<Seq<char>>);

    closed spec fn view(&self) -> (Seq<char>, Seq<Seq<char>>) {
        self.reply@
    }
}

impl Clone for FixtureProviderClient {
    fn clone(&self) -> (copy: Self)
        ensures
            copy@ == self@,
    {
        FixtureProviderClient { reply: self.reply.clone() }
    }
}

impl FixtureProviderClient {
    pub fn new(reply: ProviderCallReply) -> (client: Self)
        ensures
            client@ == reply@,
    {
        FixtureProviderClient { reply }
    }

    /// A fixture whose reply is `text` with no diagnostics.
    pub fn from_text(text: &str) -> (client: Self)
        ensures
            client@ == (text@, Seq::<Seq<char>>::empty()),
    {
        let client = Self::new(ProviderCallReply::new(text, Vec::<JudgeDiagnostic>::new()));
        assert(client@.1 =~= Seq::<Seq<char>>::empty());
        client
    }
}

impl ProviderClient for FixtureProviderClient {
    /// Answers any request with the configured reply.
    fn call(&self, request: ProviderCallRequest) -> (result: Result<ProviderCallReply, Error>)
        ensures
            result matches Ok(reply) && reply@ == self@,
    {
        Ok(self.reply.clone())
    }
}

} // verus!
