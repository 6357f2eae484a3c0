//! The requests on links: list them, show one, create one, delete one.
use crate::effect;
use crate::effect::{Effect, EffectView, Reply, ReplyView};
use crate::error;
use crate::error::{Failure, FailureView};
use crate::link;
use crate::link::{Link, LinkView, NewLink};
use crate::link_id;
use crate::path;
use vstd::prelude::*;

verus! {

/// The model of an answer that is one link.
pub open spec fn link_answer_view(answer: Result<Link, Failure>) -> Result<LinkView, FailureView> {
    match answer {
        Ok(link) => Ok(link@),
        Err(failure) => Err(failure@),
    }
}

/// The request for all links.
#[derive(Debug)]
pub enum ListLinks {
    Connecting,
    Listing,
    Finished(Result<Vec<Link>, Failure>),
}

/// The model of [`ListLinks`].
pub enum ListView {
    Connecting,
    Listing,
    Finished(Result<Seq<LinkView>, FailureView>),
}

impl View for ListLinks {
    type V = ListView;

    open spec fn view(&self) -> ListView {
        match self {
            ListLinks::Connecting => ListView::Connecting,
            ListLinks::Listing => ListView::Listing,
            ListLinks::Finished(Ok(links)) => ListView::Finished(Ok(link::links_view(links@))),
            ListLinks::Finished(Err(failure)) => ListView::Finished(Err(failure@)),
        }
    }
}

impl ListView {
    /// The effect that the request waits for. One that is answered waits for none.
    pub open spec fn effect(self) -> Option<EffectView> {
        match self {
            ListView::Connecting => Some(EffectView::Connect),
            ListView::Listing => Some(EffectView::ListLinks),
            ListView::Finished(_) => None,
        }
    }

    /// The request after `reply`. The answer is every link that was loaded.
    pub open spec fn after(self, reply: ReplyView) -> ListView {
        match (self, reply) {
            (ListView::Connecting, ReplyView::Connected(Ok(()))) => ListView::Listing,
            (ListView::Connecting, ReplyView::Connected(Err(fault))) => ListView::Finished(
                Err(FailureView::internal(fault.display)),
            ),
            (ListView::Listing, ReplyView::Rows(Ok(links))) => ListView::Finished(Ok(links)),
            (ListView::Listing, ReplyView::Rows(Err(fault))) => ListView::Finished(
                Err(FailureView::of_store(fault)),
            ),
            _ => self,
        }
    }
}

impl ListLinks {
    /// A request that has not begun.
    pub fn start() -> (request: ListLinks)
        ensures
            request@ == ListView::Connecting,
    {
        ListLinks::Connecting
    }

    /// The effect that the request waits for.
    pub fn effect(&self) -> (effect: Option<Effect>)
        ensures
            match effect {
                Some(effect) => self@.effect() == Some(effect@),
                None => self@.effect() is None,
            },
    {
        match self {
            ListLinks::Connecting => Some(Effect::Connect),
            ListLinks::Listing => Some(Effect::ListLinks),
            ListLinks::Finished(_) => None,
        }
    }

    /// The request after `reply`.
    pub fn resume(self, reply: Reply) -> (request: ListLinks)
        ensures
            request@ == self@.after(reply@),
    {
        match (self, reply) {
            (ListLinks::Connecting, Reply::Connected(Ok(()))) => ListLinks::Listing,
            (ListLinks::Connecting, Reply::Connected(Err(fault))) => {
                ListLinks::Finished(Err(error::internal_error(fault)))
            },
            (ListLinks::Listing, Reply::Rows(Ok(links))) => ListLinks::Finished(Ok(links)),
            (ListLinks::Listing, Reply::Rows(Err(fault))) => {
                ListLinks::Finished(Err(Failure::of_store(fault)))
            },
            (request, _) => request,
        }
    }
}

/// The request for one link.
#[derive(Debug)]
pub enum ShowLink {
    Connecting { id: String },
    Finding { id: String },
    Finished(Result<Link, Failure>),
}

/// The model of [`ShowLink`].
pub enum ShowView {
    Connecting { id: Seq<char> },
    Finding { id: Seq<char> },
    Finished(Result<LinkView, FailureView>),
}

impl View for ShowLink {
    type V = ShowView;

    open spec fn view(&self) -> ShowView {
        match self {
            ShowLink::Connecting { id } => ShowView::Connecting { id: id@ },
            ShowLink::Finding { id } => ShowView::Finding { id: id@ },
            ShowLink::Finished(answer) => ShowView::Finished(link_answer_view(*answer)),
        }
    }
}

impl ShowView {
    /// The effect that the request waits for. One that is answered waits for none.
    pub open spec fn effect(self) -> Option<EffectView> {
        match self {
            ShowView::Connecting { .. } => Some(EffectView::Connect),
            ShowView::Finding { id } => Some(EffectView::FindLink { id }),
            ShowView::Finished(_) => None,
        }
    }

    /// The request after `reply`. The answer is the first link that was found.
    pub open spec fn after(self, reply: ReplyView) -> ShowView {
        match (self, reply) {
            (ShowView::Connecting { id }, ReplyView::Connected(Ok(()))) => ShowView::Finding { id },
            (ShowView::Connecting { .. }, ReplyView::Connected(Err(fault))) => ShowView::Finished(
                Err(FailureView::internal(fault.display)),
            ),
            (ShowView::Finding { .. }, ReplyView::Rows(Ok(links))) => ShowView::Finished(
                if links.len() > 0 {
                    Ok(links[0])
                } else {
                    Err(FailureView { status: error::NOT_FOUND, message: "File not found"@ })
                },
            ),
            (ShowView::Finding { .. }, ReplyView::Rows(Err(fault))) => ShowView::Finished(
                Err(FailureView::of_store(fault)),
            ),
            _ => self,
        }
    }
}

impl ShowLink {
    /// A request for the link with this identifier that has not begun.
    pub fn start(id: String) -> (request: ShowLink)
        ensures
            request@ == (ShowView::Connecting { id: id@ }),
    {
        ShowLink::Connecting { id }
    }

    /// The effect that the request waits for.
    pub fn effect(&self) -> (effect: Option<Effect>)
        ensures
            match effect {
                Some(effect) => self@.effect() == Some(effect@),
                None => self@.effect() is None,
            },
    {
        match self {
            ShowLink::Connecting { .. } => Some(Effect::Connect),
            ShowLink::Finding { id } => Some(Effect::FindLink { id: id.clone() }),
            ShowLink::Finished(_) => None,
        }
    }

    /// The request after `reply`.
    pub fn resume(self, reply: Reply) -> (request: ShowLink)
        ensures
            request@ == self@.after(reply@),
    {
        match (self, reply) {
            (ShowLink::Connecting { id }, Reply::Connected(Ok(()))) => ShowLink::Finding { id },
            (ShowLink::Connecting { id: _ }, Reply::Connected(Err(fault))) => {
                ShowLink::Finished(Err(error::internal_error(fault)))
            },
            (ShowLink::Finding { id: _ }, Reply::Rows(Ok(links))) => {
                if links.len() > 0 {
                    ShowLink::Finished(Ok(links[0].clone()))
                } else {
                    ShowLink::Finished(
                        Err(
                            Failure {
                                status: error::NOT_FOUND,
                                message: "File not found".to_owned(),
                            },
                        ),
                    )
                }
            },
            (ShowLink::Finding { id: _ }, Reply::Rows(Err(fault))) => {
                ShowLink::Finished(Err(Failure::of_store(fault)))
            },
            (request, _) => request,
        }
    }
}

/// The request to create a link.
#[derive(Debug)]
pub enum CreateLink {
    Connecting { link: Link },
    Inserting { link: Link },
    Enqueuing { link: Link },
    Finished(Result<Link, Failure>),
}

/// The model of [`CreateLink`].
pub enum CreateView {
    Connecting { link: LinkView },
    Inserting { link: LinkView },
    Enqueuing { link: LinkView },
    Finished(Result<LinkView, FailureView>),
}

impl View for CreateLink {
    type V = CreateView;

    open spec fn view(&self) -> CreateView {
        match self {
            CreateLink::Connecting { link } => CreateView::Connecting { link: link@ },
            CreateLink::Inserting { link } => CreateView::Inserting { link: link@ },
            CreateLink::Enqueuing { link } => CreateView::Enqueuing { link: link@ },
            CreateLink::Finished(answer) => CreateView::Finished(link_answer_view(*answer)),
        }
    }
}

impl CreateView {
    /// A request for a link to `url` under the identifier `id` that has not begun.
    pub open spec fn start(url: Seq<char>, id: Seq<char>) -> CreateView {
        CreateView::Connecting { link: link::unseen_link(url, id) }
    }

    /// The effect that the request waits for. One that is answered waits for none.
    pub open spec fn effect(self) -> Option<EffectView> {
        match self {
            CreateView::Connecting { .. } => Some(EffectView::Connect),
            CreateView::Inserting { link } => Some(EffectView::InsertLink(link)),
            CreateView::Enqueuing { link } => Some(EffectView::Enqueue(link)),
            CreateView::Finished(_) => None,
        }
    }

    /// The request after `reply`. What is queued, and answered, is the link as the store has it.
    pub open spec fn after(self, reply: ReplyView) -> CreateView {
        match (self, reply) {
            (
                CreateView::Connecting { link },
                ReplyView::Connected(Ok(())),
            ) => CreateView::Inserting { link },
            (
                CreateView::Connecting { .. },
                ReplyView::Connected(Err(fault)),
            ) => CreateView::Finished(Err(FailureView::internal(fault.display))),
            (CreateView::Inserting { .. }, ReplyView::Row(Ok(row))) => CreateView::Enqueuing {
                link: row,
            },
            (CreateView::Inserting { .. }, ReplyView::Row(Err(fault))) => CreateView::Finished(
                Err(FailureView::of_store(fault)),
            ),
            (
                CreateView::Enqueuing { link },
                ReplyView::Enqueued(Ok(())),
            ) => CreateView::Finished(Ok(link)),
            (
                CreateView::Enqueuing { .. },
                ReplyView::Enqueued(Err(fault)),
            ) => CreateView::Finished(Err(FailureView::internal(fault.display))),
            _ => self,
        }
    }
}

impl CreateLink {
    /// A request under the given identifier that has not begun.
    pub fn start_with_id(new_link: NewLink, id: String) -> (request: CreateLink)
        ensures
            request@ == CreateView::start(new_link.url@, id@),
    {
        CreateLink::Connecting { link: Link::with_id(new_link.url, id) }
    }

    /// A request under a new random identifier that has not begun.
    pub fn start(new_link: NewLink) -> (request: CreateLink)
        ensures
            exists|id: Seq<char>|
                link_id::is_link_id(id) && request@ == CreateView::start(new_link.url@, id),
    {
        let id = link_id::new_link_id();
        let ghost id_view = id@;
        let request = CreateLink::start_with_id(new_link, id);
        assert(link_id::is_link_id(id_view));
        request
    }

    /// The effect that the request waits for.
    pub fn effect(&self) -> (effect: Option<Effect>)
        ensures
            match effect {
                Some(effect) => self@.effect() == Some(effect@),
                None => self@.effect() is None,
            },
    {
        match self {
            CreateLink::Connecting { .. } => Some(Effect::Connect),
            CreateLink::Inserting { link } => Some(Effect::InsertLink(link.clone())),
            CreateLink::Enqueuing { link } => Some(Effect::Enqueue(link.clone())),
            CreateLink::Finished(_) => None,
        }
    }

    /// The request after `reply`.
    pub fn resume(self, reply: Reply) -> (request: CreateLink)
        ensures
            request@ == self@.after(reply@),
    {
        match (self, reply) {
            (CreateLink::Connecting { link }, Reply::Connected(Ok(()))) => {
                CreateLink::Inserting { link }
            },
            (CreateLink::Connecting { link: _ }, Reply::Connected(Err(fault))) => {
                CreateLink::Finished(Err(error::internal_error(fault)))
            },
            (CreateLink::Inserting { link: _ }, Reply::Row(Ok(row))) => {
                CreateLink::Enqueuing { link: row }
            },
            (CreateLink::Inserting { link: _ }, Reply::Row(Err(fault))) => {
                CreateLink::Finished(Err(Failure::of_store(fault)))
            },
            (CreateLink::Enqueuing { link }, Reply::Enqueued(Ok(()))) => {
                CreateLink::Finished(Ok(link))
            },
            (CreateLink::Enqueuing { link: _ }, Reply::Enqueued(Err(fault))) => {
                CreateLink::Finished(Err(error::internal_error(fault)))
            },
            (request, _) => request,
        }
    }
}

/// The request to delete a link and its transcoded file.
#[derive(Debug)]
pub enum DeleteLink {
    Connecting { id: String, transcode_folder: String },
    Deleting { id: String, transcode_folder: String },
    RemovingFile { path: String },
    Finished(Result<(), Failure>),
}

/// The model of [`DeleteLink`].
pub enum DeleteView {
    Connecting { id: Seq<char>, transcode_folder: Seq<char> },
    Deleting { id: Seq<char>, transcode_folder: Seq<char> },
    RemovingFile { path: Seq<char> },
    Finished(Result<(), FailureView>),
}

impl View for DeleteLink {
    type V = DeleteView;

    open spec fn view(&self) -> DeleteView {
        match self {
            DeleteLink::Connecting { id, transcode_folder } => DeleteView::Connecting {
                id: id@,
                transcode_folder: transcode_folder@,
            },
            DeleteLink::Deleting { id, transcode_folder } => DeleteView::Deleting {
                id: id@,
                transcode_folder: transcode_folder@,
            },
            DeleteLink::RemovingFile { path } => DeleteView::RemovingFile { path: path@ },
            DeleteLink::Finished(Ok(())) => DeleteView::Finished(Ok(())),
            DeleteLink::Finished(Err(failure)) => DeleteView::Finished(Err(failure@)),
        }
    }
}

impl DeleteView {
    /// The effect that the request waits for. One that is answered waits for none.
    pub open spec fn effect(self) -> Option<EffectView> {
        match self {
            DeleteView::Connecting { .. } => Some(EffectView::Connect),
            DeleteView::Deleting { id, .. } => Some(EffectView::DeleteLink { id }),
            DeleteView::RemovingFile { path } => Some(EffectView::RemoveFile { path }),
            DeleteView::Finished(_) => None,
        }
    }

    /// The request after `reply`. Whether there was a file to remove does not matter.
    pub open spec fn after(self, reply: ReplyView) -> DeleteView {
        match (self, reply) {
            (
                DeleteView::Connecting { id, transcode_folder },
                ReplyView::Connected(Ok(())),
            ) => DeleteView::Deleting { id, transcode_folder },
            (
                DeleteView::Connecting { .. },
                ReplyView::Connected(Err(fault)),
            ) => DeleteView::Finished(Err(FailureView::internal(fault.display))),
            (
                DeleteView::Deleting { transcode_folder, .. },
                ReplyView::Row(Ok(row)),
            ) => DeleteView::RemovingFile { path: path::joined(transcode_folder, row.id) },
            (DeleteView::Deleting { .. }, ReplyView::Row(Err(fault))) => DeleteView::Finished(
                Err(FailureView::of_store(fault)),
            ),
            (DeleteView::RemovingFile { .. }, ReplyView::Removed(_)) => DeleteView::Finished(
                Ok(()),
            ),
            _ => self,
        }
    }
}

impl DeleteLink {
    /// A request to delete the link with this identifier that has not begun.
    pub fn start(id: String, transcode_folder: String) -> (request: DeleteLink)
        ensures
            request@ == (DeleteView::Connecting { id: id@, transcode_folder: transcode_folder@ }),
    {
        DeleteLink::Connecting { id, transcode_folder }
    }

    /// The effect that the request waits for.
    pub fn effect(&self) -> (effect: Option<Effect>)
        ensures
            match effect {
                Some(effect) => self@.effect() == Some(effect@),
                None => self@.effect() is None,
            },
    {
        match self {
            DeleteLink::Connecting { .. } => Some(Effect::Connect),
            DeleteLink::Deleting { id, .. } => Some(Effect::DeleteLink { id: id.clone() }),
            DeleteLink::RemovingFile { path } => Some(Effect::RemoveFile { path: path.clone() }),
            DeleteLink::Finished(_) => None,
        }
    }

    /// The request after `reply`.
    pub fn resume(self, reply: Reply) -> (request: DeleteLink)
        ensures
            request@ == self@.after(reply@),
    {
        match (self, reply) {
            (DeleteLink::Connecting { id, transcode_folder }, Reply::Connected(Ok(()))) => {
                DeleteLink::Deleting { id, transcode_folder }
            },
            (
                DeleteLink::Connecting { id: _, transcode_folder: _ },
                Reply::Connected(Err(fault)),
            ) => { DeleteLink::Finished(Err(error::internal_error(fault))) },
            (DeleteLink::Deleting { id: _, transcode_folder }, Reply::Row(Ok(row))) => {
                DeleteLink::RemovingFile {
                    path: path::join_path(transcode_folder.as_str(), row.id.as_str()),
                }
            },
            (DeleteLink::Deleting { id: _, transcode_folder: _ }, Reply::Row(Err(fault))) => {
                DeleteLink::Finished(Err(Failure::of_store(fault)))
            },
            (DeleteLink::RemovingFile { path: _ }, Reply::Removed(_)) => {
                DeleteLink::Finished(Ok(()))
            },
            (request, _) => request,
        }
    }
}

impl ListView {
    /// How many replies the request waits for at most.
    pub open spec fn remaining(self) -> nat {
        match self {
            ListView::Connecting => 2,
            ListView::Listing => 1,
            ListView::Finished(_) => 0,
        }
    }
}

/// A request for all links is answered exactly when it waits for nothing, and after at most two replies. What is no
/// reply to the effect that it waits for changes nothing.
pub proof fn lemma_list_makes_progress(request: ListView, reply: ReplyView)
    ensures
        request.remaining() <= 2,
        request.effect() is None <==> request is Finished,
        request.effect() is None <==> request.remaining() == 0,
        match request.effect() {
            Some(effect) if effect::answers(effect, reply) => request.after(reply).remaining()
                < request.remaining(),
            _ => request.after(reply) == request,
        },
{
}

impl ShowView {
    /// How many replies the request waits for at most.
    pub open spec fn remaining(self) -> nat {
        match self {
            ShowView::Connecting { .. } => 2,
            ShowView::Finding { .. } => 1,
            ShowView::Finished(_) => 0,
        }
    }
}

/// A request for one link is answered exactly when it waits for nothing, and after at most two replies. What is no
/// reply to the effect that it waits for changes nothing.
pub proof fn lemma_show_makes_progress(request: ShowView, reply: ReplyView)
    ensures
        request.remaining() <= 2,
        request.effect() is None <==> request is Finished,
        request.effect() is None <==> request.remaining() == 0,
        match request.effect() {
            Some(effect) if effect::answers(effect, reply) => request.after(reply).remaining()
                < request.remaining(),
            _ => request.after(reply) == request,
        },
{
}

impl CreateView {
    /// How many replies the request waits for at most.
    pub open spec fn remaining(self) -> nat {
        match self {
            CreateView::Connecting { .. } => 3,
            CreateView::Inserting { .. } => 2,
            CreateView::Enqueuing { .. } => 1,
            CreateView::Finished(_) => 0,
        }
    }
}

/// A request to create a link is answered exactly when it waits for nothing, and after at most three replies. What is no
/// reply to the effect that it waits for changes nothing.
pub proof fn lemma_create_makes_progress(request: CreateView, reply: ReplyView)
    ensures
        request.remaining() <= 3,
        request.effect() is None <==> request is Finished,
        request.effect() is None <==> request.remaining() == 0,
        match request.effect() {
            Some(effect) if effect::answers(effect, reply) => request.after(reply).remaining()
                < request.remaining(),
            _ => request.after(reply) == request,
        },
{
}

impl DeleteView {
    /// How many replies the request waits for at most.
    pub open spec fn remaining(self) -> nat {
        match self {
            DeleteView::Connecting { .. } => 3,
            DeleteView::Deleting { .. } => 2,
            DeleteView::RemovingFile { .. } => 1,
            DeleteView::Finished(_) => 0,
        }
    }
}

/// A request to delete a link is answered exactly when it waits for nothing, and after at most three replies. What is no
/// reply to the effect that it waits for changes nothing.
pub proof fn lemma_delete_makes_progress(request: DeleteView, reply: ReplyView)
    ensures
        request.remaining() <= 3,
        request.effect() is None <==> request is Finished,
        request.effect() is None <==> request.remaining() == 0,
        match request.effect() {
            Some(effect) if effect::answers(effect, reply) => request.after(reply).remaining()
                < request.remaining(),
            _ => request.after(reply) == request,
        },
{
}

impl ListView {
    /// The request after all these replies.
    pub open spec fn run(self, replies: Seq<ReplyView>) -> ListView
        decreases replies.len(),
    {
        if replies.len() == 0 {
            self
        } else {
            self.run(replies.drop_last()).after(replies.last())
        }
    }

    /// Whether the request holds a connection to the store after these replies.
    pub open spec fn connected(self, replies: Seq<ReplyView>) -> bool {
        effect::connected(|earlier: Seq<ReplyView>| self.run(earlier).effect(), replies)
    }
}

/// A request for all links connects to the store before anything else: whatever else it waits for, it
/// holds a connection.
pub proof fn lemma_list_connects_first(request: ListView, replies: Seq<ReplyView>)
    requires
        request is Connecting,
    ensures
        request.run(replies).effect() matches Some(effect) ==> effect is Connect
            || request.connected(replies),
    decreases replies.len(),
{
    if replies.len() > 0 {
        lemma_list_connects_first(request, replies.drop_last());
    }
}

impl ShowView {
    /// The request after all these replies.
    pub open spec fn run(self, replies: Seq<ReplyView>) -> ShowView
        decreases replies.len(),
    {
        if replies.len() == 0 {
            self
        } else {
            self.run(replies.drop_last()).after(replies.last())
        }
    }

    /// Whether the request holds a connection to the store after these replies.
    pub open spec fn connected(self, replies: Seq<ReplyView>) -> bool {
        effect::connected(|earlier: Seq<ReplyView>| self.run(earlier).effect(), replies)
    }
}

/// A request for one link connects to the store before anything else: whatever else it waits for, it
/// holds a connection.
pub proof fn lemma_show_connects_first(request: ShowView, replies: Seq<ReplyView>)
    requires
        request is Connecting,
    ensures
        request.run(replies).effect() matches Some(effect) ==> effect is Connect
            || request.connected(replies),
    decreases replies.len(),
{
    if replies.len() > 0 {
        lemma_show_connects_first(request, replies.drop_last());
    }
}

impl CreateView {
    /// The request after all these replies.
    pub open spec fn run(self, replies: Seq<ReplyView>) -> CreateView
        decreases replies.len(),
    {
        if replies.len() == 0 {
            self
        } else {
            self.run(replies.drop_last()).after(replies.last())
        }
    }

    /// Whether the request holds a connection to the store after these replies.
    pub open spec fn connected(self, replies: Seq<ReplyView>) -> bool {
        effect::connected(|earlier: Seq<ReplyView>| self.run(earlier).effect(), replies)
    }
}

/// A request to create a link connects to the store before anything else: whatever else it waits for, it
/// holds a connection.
pub proof fn lemma_create_connects_first(request: CreateView, replies: Seq<ReplyView>)
    requires
        request is Connecting,
    ensures
        request.run(replies).effect() matches Some(effect) ==> effect is Connect
            || request.connected(replies),
    decreases replies.len(),
{
    if replies.len() > 0 {
        lemma_create_connects_first(request, replies.drop_last());
    }
}

impl DeleteView {
    /// The request after all these replies.
    pub open spec fn run(self, replies: Seq<ReplyView>) -> DeleteView
        decreases replies.len(),
    {
        if replies.len() == 0 {
            self
        } else {
            self.run(replies.drop_last()).after(replies.last())
        }
    }

    /// Whether the request holds a connection to the store after these replies.
    pub open spec fn connected(self, replies: Seq<ReplyView>) -> bool {
        effect::connected(|earlier: Seq<ReplyView>| self.run(earlier).effect(), replies)
    }
}

/// A request to delete a link connects to the store before anything else: whatever else it waits for, it
/// holds a connection.
pub proof fn lemma_delete_connects_first(request: DeleteView, replies: Seq<ReplyView>)
    requires
        request is Connecting,
    ensures
        request.run(replies).effect() matches Some(effect) ==> effect is Connect
            || request.connected(replies),
    decreases replies.len(),
{
    if replies.len() > 0 {
        lemma_delete_connects_first(request, replies.drop_last());
    }
}

/// The models of the requests are at the same point, with the same identifiers, links and answers.
pub proof fn lemma_models_of_requests(
    list: ListLinks,
    show: ShowLink,
    create: CreateLink,
    delete: DeleteLink,
)
    ensures
        match list {
            ListLinks::Connecting => list@ is Connecting,
            ListLinks::Listing => list@ is Listing,
            ListLinks::Finished(answer) => {
                &&& list@ matches ListView::Finished(model)
                &&& model is Ok <==> answer is Ok
                &&& answer is Ok ==> model->Ok_0.len() == answer->Ok_0@.len()
                &&& answer is Ok ==> forall|i: int|
                    0 <= i < answer->Ok_0@.len() ==> #[trigger] model->Ok_0[i]
                        == answer->Ok_0@[i]@
                &&& answer is Err ==> model->Err_0 == answer->Err_0@
            },
        },
        match show {
            ShowLink::Connecting { id } => show@ == (ShowView::Connecting { id: id@ }),
            ShowLink::Finding { id } => show@ == (ShowView::Finding { id: id@ }),
            ShowLink::Finished(answer) => {
                &&& show@ matches ShowView::Finished(model)
                &&& model is Ok <==> answer is Ok
                &&& answer is Ok ==> model->Ok_0 == answer->Ok_0@
                &&& answer is Err ==> model->Err_0 == answer->Err_0@
            },
        },
        match create {
            CreateLink::Connecting { link } => create@ == (CreateView::Connecting { link: link@ }),
            CreateLink::Inserting { link } => create@ == (CreateView::Inserting { link: link@ }),
            CreateLink::Enqueuing { link } => create@ == (CreateView::Enqueuing { link: link@ }),
            CreateLink::Finished(answer) => {
                &&& create@ matches CreateView::Finished(model)
                &&& model is Ok <==> answer is Ok
                &&& answer is Ok ==> model->Ok_0 == answer->Ok_0@
                &&& answer is Err ==> model->Err_0 == answer->Err_0@
            },
        },
        match delete {
            DeleteLink::Connecting { id, transcode_folder } => delete@ == (DeleteView::Connecting {
                id: id@,
                transcode_folder: transcode_folder@,
            }),
            DeleteLink::Deleting { id, transcode_folder } => delete@ == (DeleteView::Deleting {
                id: id@,
                transcode_folder: transcode_folder@,
            }),
            DeleteLink::RemovingFile { path } => delete@ == (DeleteView::RemovingFile {
                path: path@,
            }),
            DeleteLink::Finished(answer) => {
                &&& delete@ matches DeleteView::Finished(model)
                &&& model is Ok <==> answer is Ok
                &&& answer is Err ==> model->Err_0 == answer->Err_0@
            },
        },
{
}

} // verus!
