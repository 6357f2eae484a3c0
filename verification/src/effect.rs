//! What a request or a job needs of the outside world, and what comes back.
use crate::command::{Command, CommandView};
use crate::error::{Fault, FaultView, StoreFault, StoreFaultView};
use crate::link;
use crate::link::{Link, LinkView};
use crate::probe::{FfprobeOutput, StreamView};
use vstd::prelude::*;

verus! {

/// One thing to be done outside.
#[derive(Debug)]
pub enum Effect {
    /// Get a connection to the store. It serves the effects that follow.
    Connect,
    /// Load all links.
    ListLinks,
    /// Load the links with this identifier.
    FindLink { id: String },
    /// Load the links to this address.
    FindByUrl { url: String },
    /// Load the links to this address that have another identifier.
    FindTwins { url: String, id: String },
    /// Load the links with this hash.
    FindByHash { hash: String },
    /// Add a link, and load what was added.
    InsertLink(Link),
    /// Remove the link with this identifier, and load what was removed.
    DeleteLink { id: String },
    /// Record the hash of the link with this identifier.
    SetHash { id: String, original_hash: Option<String> },
    /// Record why the link with this identifier failed.
    SetError { id: String, error: String },
    /// Record that the link with this identifier is done.
    SetFinished { id: String },
    /// Run a program to its end. How it ends does not matter.
    Run(Command),
    /// Run the probe to its end and read the report that it prints.
    Probe(Command),
    /// Look whether a file is there.
    CheckFile { path: String },
    /// Read the content of a file.
    ReadFile { path: String },
    /// Remove a file.
    RemoveFile { path: String },
    /// Open a file to be sent.
    OpenFile { path: String },
    /// Put a link into the queue of the background jobs.
    Enqueue(Link),
    /// Wait for the next link in that queue.
    Receive,
}

/// The model of an [`Effect`].
pub enum EffectView {
    Connect,
    ListLinks,
    FindLink { id: Seq<char> },
    FindByUrl { url: Seq<char> },
    FindTwins { url: Seq<char>, id: Seq<char> },
    FindByHash { hash: Seq<char> },
    InsertLink(LinkView),
    DeleteLink { id: Seq<char> },
    SetHash { id: Seq<char>, original_hash: Option<Seq<char>> },
    SetError { id: Seq<char>, error: Seq<char> },
    SetFinished { id: Seq<char> },
    Run(CommandView),
    Probe(CommandView),
    CheckFile { path: Seq<char> },
    ReadFile { path: Seq<char> },
    RemoveFile { path: Seq<char> },
    OpenFile { path: Seq<char> },
    Enqueue(LinkView),
    Receive,
}

impl View for Effect {
    type V = EffectView;

    open spec fn view(&self) -> EffectView {
        match self {
            Effect::Connect => EffectView::Connect,
            Effect::ListLinks => EffectView::ListLinks,
            Effect::FindLink { id } => EffectView::FindLink { id: id@ },
            Effect::FindByUrl { url } => EffectView::FindByUrl { url: url@ },
            Effect::FindTwins { url, id } => EffectView::FindTwins { url: url@, id: id@ },
            Effect::FindByHash { hash } => EffectView::FindByHash { hash: hash@ },
            Effect::InsertLink(link) => EffectView::InsertLink(link@),
            Effect::DeleteLink { id } => EffectView::DeleteLink { id: id@ },
            Effect::SetHash { id, original_hash } => EffectView::SetHash {
                id: id@,
                original_hash: original_hash.deep_view(),
            },
            Effect::SetError { id, error } => EffectView::SetError { id: id@, error: error@ },
            Effect::SetFinished { id } => EffectView::SetFinished { id: id@ },
            Effect::Run(command) => EffectView::Run(command@),
            Effect::Probe(command) => EffectView::Probe(command@),
            Effect::CheckFile { path } => EffectView::CheckFile { path: path@ },
            Effect::ReadFile { path } => EffectView::ReadFile { path: path@ },
            Effect::RemoveFile { path } => EffectView::RemoveFile { path: path@ },
            Effect::OpenFile { path } => EffectView::OpenFile { path: path@ },
            Effect::Enqueue(link) => EffectView::Enqueue(link@),
            Effect::Receive => EffectView::Receive,
        }
    }
}

/// What came of an effect. A text in place of a fault is the user's rendering of the error.
#[derive(Debug)]
pub enum Reply {
    /// To `Connect`.
    Connected(Result<(), Fault>),
    /// To an effect that loads links.
    Rows(Result<Vec<Link>, StoreFault>),
    /// To `InsertLink` and `DeleteLink`.
    Row(Result<Link, StoreFault>),
    /// To an effect that records something.
    Written(Result<(), StoreFault>),
    /// To `Run`: whether the program could be run at all.
    Ran(Result<(), String>),
    /// To `Probe`.
    Probed(Result<FfprobeOutput, String>),
    /// To `CheckFile`.
    Checked(bool),
    /// To `ReadFile`.
    Content(Result<Vec<u8>, String>),
    /// To `RemoveFile`.
    Removed(Result<(), String>),
    /// To `OpenFile`.
    Opened(Result<(), String>),
    /// To `Enqueue`.
    Enqueued(Result<(), Fault>),
    /// To `Receive`. No link means that the queue is closed.
    Received(Option<Link>),
}

/// The model of a [`Reply`].
pub enum ReplyView {
    Connected(Result<(), FaultView>),
    Rows(Result<Seq<LinkView>, StoreFaultView>),
    Row(Result<LinkView, StoreFaultView>),
    Written(Result<(), StoreFaultView>),
    Ran(Result<(), Seq<char>>),
    Probed(Result<Seq<StreamView>, Seq<char>>),
    Checked(bool),
    Content(Result<Seq<u8>, Seq<char>>),
    Removed(Result<(), Seq<char>>),
    Opened(Result<(), Seq<char>>),
    Enqueued(Result<(), FaultView>),
    Received(Option<LinkView>),
}

/// The model of a result, from the models of its two cases.
pub open spec fn result_view<T: View, E: View>(result: Result<T, E>) -> Result<T::V, E::V> {
    match result {
        Ok(value) => Ok(value@),
        Err(error) => Err(error@),
    }
}

impl View for Reply {
    type V = ReplyView;

    open spec fn view(&self) -> ReplyView {
        match self {
            Reply::Connected(result) => ReplyView::Connected(result_view(*result)),
            Reply::Rows(Ok(links)) => ReplyView::Rows(Ok(link::links_view(links@))),
            Reply::Rows(Err(fault)) => ReplyView::Rows(Err(fault@)),
            Reply::Row(result) => ReplyView::Row(result_view(*result)),
            Reply::Written(result) => ReplyView::Written(result_view(*result)),
            Reply::Ran(result) => ReplyView::Ran(result_view(*result)),
            Reply::Probed(result) => ReplyView::Probed(result_view(*result)),
            Reply::Checked(found) => ReplyView::Checked(*found),
            Reply::Content(result) => ReplyView::Content(result_view(*result)),
            Reply::Removed(result) => ReplyView::Removed(result_view(*result)),
            Reply::Opened(result) => ReplyView::Opened(result_view(*result)),
            Reply::Enqueued(result) => ReplyView::Enqueued(result_view(*result)),
            Reply::Received(Some(link)) => ReplyView::Received(Some(link@)),
            Reply::Received(None) => ReplyView::Received(None),
        }
    }
}

/// Whether a reply is one to this effect.
pub open spec fn answers(effect: EffectView, reply: ReplyView) -> bool {
    match effect {
        EffectView::Connect => reply is Connected,
        EffectView::ListLinks
        | EffectView::FindLink { .. }
        | EffectView::FindByUrl { .. }
        | EffectView::FindTwins { .. }
        | EffectView::FindByHash { .. } => reply is Rows,
        EffectView::InsertLink(_) | EffectView::DeleteLink { .. } => reply is Row,
        EffectView::SetHash { .. }
        | EffectView::SetError { .. }
        | EffectView::SetFinished { .. } => reply is Written,
        EffectView::Run(_) => reply is Ran,
        EffectView::Probe(_) => reply is Probed,
        EffectView::CheckFile { .. } => reply is Checked,
        EffectView::ReadFile { .. } => reply is Content,
        EffectView::RemoveFile { .. } => reply is Removed,
        EffectView::OpenFile { .. } => reply is Opened,
        EffectView::Enqueue(_) => reply is Enqueued,
        EffectView::Receive => reply is Received,
    }
}

/// Whether a connection to the store is held after these replies. `waits` says for which effect was
/// waited after the replies up to some point. Each `Connect` gives up what was held and holds what
/// it got, and to wait for the next job gives up the connection of the last.
pub open spec fn connected(
    waits: spec_fn(Seq<ReplyView>) -> Option<EffectView>,
    replies: Seq<ReplyView>,
) -> bool
    decreases replies.len(),
{
    replies.len() > 0 && match (waits(replies.drop_last()), replies.last()) {
        (Some(EffectView::Connect), ReplyView::Connected(result)) => result is Ok,
        (Some(EffectView::Receive), ReplyView::Received(_)) => false,
        _ => connected(waits, replies.drop_last()),
    }
}

/// A connection is held only where a `Connect` was answered with one.
pub proof fn lemma_connection_was_got(
    waits: spec_fn(Seq<ReplyView>) -> Option<EffectView>,
    replies: Seq<ReplyView>,
)
    requires
        connected(waits, replies),
    ensures
        exists|k: int|
            {
                &&& 0 <= k < replies.len()
                &&& waits(#[trigger] replies.take(k)) == Some(EffectView::Connect)
                &&& replies[k] matches ReplyView::Connected(result) && result is Ok
            },
    decreases replies.len(),
{
    let earlier = replies.drop_last();
    let last: int = replies.len() - 1;
    assert(replies.take(last) =~= earlier);
    if !(waits(earlier) == Some(EffectView::Connect) && replies.last() is Connected) {
        lemma_connection_was_got(waits, earlier);
        let k = choose|k: int|
            {
                &&& 0 <= k < earlier.len()
                &&& waits(#[trigger] earlier.take(k)) == Some(EffectView::Connect)
                &&& earlier[k] matches ReplyView::Connected(result) && result is Ok
            };
        assert(replies.take(k) =~= earlier.take(k));
        assert(replies[k] == earlier[k]);
    }
}

/// The model of an effect is of the same kind and has the same texts, links and commands.
pub proof fn lemma_model_of_an_effect(effect: Effect)
    ensures
        match effect {
            Effect::Connect => effect@ is Connect,
            Effect::ListLinks => effect@ is ListLinks,
            Effect::FindLink { id } => effect@ == (EffectView::FindLink { id: id@ }),
            Effect::FindByUrl { url } => effect@ == (EffectView::FindByUrl { url: url@ }),
            Effect::FindTwins { url, id } => effect@ == (EffectView::FindTwins {
                url: url@,
                id: id@,
            }),
            Effect::FindByHash { hash } => effect@ == (EffectView::FindByHash { hash: hash@ }),
            Effect::InsertLink(link) => effect@ == EffectView::InsertLink(link@),
            Effect::DeleteLink { id } => effect@ == (EffectView::DeleteLink { id: id@ }),
            Effect::SetHash { id, original_hash } => {
                &&& effect@ matches EffectView::SetHash { id: of, original_hash: hash }
                &&& of == id@
                &&& original_hash is Some <==> hash is Some
                &&& original_hash is Some ==> hash->0 == original_hash->0@
            },
            Effect::SetError { id, error } => effect@ == (EffectView::SetError {
                id: id@,
                error: error@,
            }),
            Effect::SetFinished { id } => effect@ == (EffectView::SetFinished { id: id@ }),
            Effect::Run(command) => effect@ == EffectView::Run(command@),
            Effect::Probe(command) => effect@ == EffectView::Probe(command@),
            Effect::CheckFile { path } => effect@ == (EffectView::CheckFile { path: path@ }),
            Effect::ReadFile { path } => effect@ == (EffectView::ReadFile { path: path@ }),
            Effect::RemoveFile { path } => effect@ == (EffectView::RemoveFile { path: path@ }),
            Effect::OpenFile { path } => effect@ == (EffectView::OpenFile { path: path@ }),
            Effect::Enqueue(link) => effect@ == EffectView::Enqueue(link@),
            Effect::Receive => effect@ is Receive,
        },
{
}

/// The model of a result has the model of its value or of its error.
pub proof fn lemma_model_of_a_result<T: View, E: View>(result: Result<T, E>)
    ensures
        result matches Ok(value) ==> result_view(result) == Ok::<T::V, E::V>(value@),
        result matches Err(error) ==> result_view(result) == Err::<T::V, E::V>(error@),
{
}

/// The model of a reply is of the same kind, succeeds where the reply does, and has what it brings.
pub proof fn lemma_model_of_a_reply(reply: Reply)
    ensures
        match reply {
            Reply::Connected(result) => {
                &&& reply@ matches ReplyView::Connected(model)
                &&& model is Ok <==> result is Ok
                &&& result is Err ==> model->Err_0 == result->Err_0@
            },
            Reply::Rows(result) => {
                &&& reply@ matches ReplyView::Rows(model)
                &&& model is Ok <==> result is Ok
                &&& result is Ok ==> model->Ok_0.len() == result->Ok_0@.len()
                &&& result is Ok ==> forall|i: int|
                    0 <= i < result->Ok_0@.len() ==> #[trigger] model->Ok_0[i]
                        == result->Ok_0@[i]@
                &&& result is Err ==> model->Err_0 == result->Err_0@
            },
            Reply::Row(result) => {
                &&& reply@ matches ReplyView::Row(model)
                &&& model is Ok <==> result is Ok
                &&& result is Ok ==> model->Ok_0 == result->Ok_0@
                &&& result is Err ==> model->Err_0 == result->Err_0@
            },
            Reply::Written(result) => {
                &&& reply@ matches ReplyView::Written(model)
                &&& model is Ok <==> result is Ok
                &&& result is Err ==> model->Err_0 == result->Err_0@
            },
            Reply::Ran(result) => {
                &&& reply@ matches ReplyView::Ran(model)
                &&& model is Ok <==> result is Ok
                &&& result is Err ==> model->Err_0 == result->Err_0@
            },
            Reply::Probed(result) => {
                &&& reply@ matches ReplyView::Probed(model)
                &&& model is Ok <==> result is Ok
                &&& result is Ok ==> model->Ok_0 == result->Ok_0@
                &&& result is Err ==> model->Err_0 == result->Err_0@
            },
            Reply::Checked(found) => reply@ == ReplyView::Checked(found),
            Reply::Content(result) => {
                &&& reply@ matches ReplyView::Content(model)
                &&& model is Ok <==> result is Ok
                &&& result is Ok ==> model->Ok_0 == result->Ok_0@
                &&& result is Err ==> model->Err_0 == result->Err_0@
            },
            Reply::Removed(result) => {
                &&& reply@ matches ReplyView::Removed(model)
                &&& model is Ok <==> result is Ok
                &&& result is Err ==> model->Err_0 == result->Err_0@
            },
            Reply::Opened(result) => {
                &&& reply@ matches ReplyView::Opened(model)
                &&& model is Ok <==> result is Ok
                &&& result is Err ==> model->Err_0 == result->Err_0@
            },
            Reply::Enqueued(result) => {
                &&& reply@ matches ReplyView::Enqueued(model)
                &&& model is Ok <==> result is Ok
                &&& result is Err ==> model->Err_0 == result->Err_0@
            },
            Reply::Received(link) => {
                &&& reply@ matches ReplyView::Received(model)
                &&& model is Some <==> link is Some
                &&& link is Some ==> model->0 == link->0@
            },
        },
{
}

} // verus!
