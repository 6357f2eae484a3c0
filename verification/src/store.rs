//! The table of links, as far as the requests and jobs rely on it, and what they make of it
//! together.
use crate::direct::{DirectStageView, DirectView};
use crate::effect::{EffectView, ReplyView};
use crate::error;
use crate::error::FailureView;
use crate::link;
use crate::link::LinkView;
use crate::path;
use crate::process::{ProcessView, StageView};
use crate::process_laws;
use crate::requests::{CreateView, DeleteView, ListView, ShowView};
use crate::tasks;
use vstd::prelude::*;

verus! {

/// A row of the table: a link, and how the job on it ended.
pub struct RowView {
    pub link: LinkView,
    pub error: Option<Seq<char>>,
    pub finished: bool,
}

/// Each row stands under the identifier of its link.
pub open spec fn is_keyed(table: Map<Seq<char>, RowView>) -> bool {
    forall|id: Seq<char>| #[trigger] table.dom().contains(id) ==> table[id].link.id == id
}

/// Whether an effect that loads links is about this one.
pub open spec fn selects(effect: EffectView, link: LinkView) -> bool {
    match effect {
        EffectView::ListLinks => true,
        EffectView::FindLink { id } => link.id == id,
        EffectView::FindByUrl { url } => link.url == url,
        EffectView::FindTwins { url, id } => link.url == url && link.id != id,
        EffectView::FindByHash { hash } => link.original_hash == Some(hash),
        _ => false,
    }
}

/// Whether the table has this link.
pub open spec fn has_link(table: Map<Seq<char>, RowView>, link: LinkView) -> bool {
    table.dom().contains(link.id) && table[link.id].link == link
}

/// Whether a store with this table replies so to the effect, when nothing goes wrong on the way.
/// Links are loaded in any order, each once. One that is there cannot be added, nor one that is not removed.
pub open spec fn serves(
    table: Map<Seq<char>, RowView>,
    effect: EffectView,
    reply: ReplyView,
) -> bool {
    match effect {
        EffectView::Connect => reply matches ReplyView::Connected(result) && result is Ok,
        EffectView::ListLinks
        | EffectView::FindLink { .. }
        | EffectView::FindByUrl { .. }
        | EffectView::FindTwins { .. }
        | EffectView::FindByHash { .. } => {
            &&& reply matches ReplyView::Rows(Ok(links))
            &&& links.no_duplicates()
            &&& forall|link: LinkView| #[trigger]
                links.contains(link) <==> has_link(table, link) && selects(effect, link)
        },
        EffectView::InsertLink(link) => {
            if table.dom().contains(link.id) {
                reply matches ReplyView::Row(Err(fault)) && fault is Database
            } else {
                reply == ReplyView::Row(Ok(link))
            }
        },
        EffectView::DeleteLink { id } => {
            if table.dom().contains(id) {
                reply == ReplyView::Row(Ok(table[id].link))
            } else {
                reply matches ReplyView::Row(Err(fault)) && fault is Database
            }
        },
        EffectView::SetHash { .. }
        | EffectView::SetError { .. }
        | EffectView::SetFinished { .. } => process_laws::is_written(reply),
        _ => false,
    }
}

/// The table after the effect.
pub open spec fn updated(table: Map<Seq<char>, RowView>, effect: EffectView) -> Map<
    Seq<char>,
    RowView,
> {
    match effect {
        EffectView::InsertLink(link) if !table.dom().contains(link.id) => table.insert(
            link.id,
            RowView { link, error: None, finished: false },
        ),
        EffectView::DeleteLink { id } => table.remove(id),
        EffectView::SetHash { id, original_hash } if table.dom().contains(id) => table.insert(
            id,
            RowView { link: LinkView { original_hash, ..table[id].link }, ..table[id] },
        ),
        EffectView::SetError { id, error } if table.dom().contains(id) => table.insert(
            id,
            RowView { error: Some(error), ..table[id] },
        ),
        EffectView::SetFinished { id } if table.dom().contains(id) => table.insert(
            id,
            RowView { finished: true, ..table[id] },
        ),
        _ => table,
    }
}

/// Whatever is done, each row stays under the identifier of its link.
pub proof fn lemma_table_stays_keyed(table: Map<Seq<char>, RowView>, effect: EffectView)
    requires
        is_keyed(table),
    ensures
        is_keyed(updated(table, effect)),
{
}

/// The request to show a link, once connected, answers what the table has under the identifier.
pub proof fn lemma_show_answers_the_row(
    table: Map<Seq<char>, RowView>,
    id: Seq<char>,
    reply: ReplyView,
)
    requires
        is_keyed(table),
        serves(table, EffectView::FindLink { id }, reply),
    ensures
        (ShowView::Finding { id }).effect() == Some(EffectView::FindLink { id }),
        (ShowView::Finding { id }).after(reply) == ShowView::Finished(
            if table.dom().contains(id) {
                Ok(table[id].link)
            } else {
                Err(FailureView { status: error::NOT_FOUND, message: "File not found"@ })
            },
        ),
{
    let links = reply->Rows_0->Ok_0;
    if table.dom().contains(id) {
        assert(has_link(table, table[id].link));
        assert(links.contains(table[id].link));
    }
    if links.len() > 0 {
        assert(links.contains(links[0]));
    }
}

/// A link that was created under an identifier that was free is queued and answered as it was
/// asked for, and is what a request for that identifier then shows.
pub proof fn lemma_created_link_is_shown(
    table: Map<Seq<char>, RowView>,
    url: Seq<char>,
    id: Seq<char>,
    connected: ReplyView,
    inserted: ReplyView,
    enqueued: ReplyView,
    shown: ReplyView,
)
    requires
        is_keyed(table),
        !table.dom().contains(id),
        serves(table, EffectView::Connect, connected),
        serves(table, EffectView::InsertLink(link::unseen_link(url, id)), inserted),
        enqueued matches ReplyView::Enqueued(result) && result is Ok,
        serves(
            updated(table, EffectView::InsertLink(link::unseen_link(url, id))),
            EffectView::FindLink { id },
            shown,
        ),
    ensures
        ({
            let link = link::unseen_link(url, id);
            let inserting = CreateView::start(url, id).after(connected);
            let enqueuing = inserting.after(inserted);
            &&& CreateView::start(url, id).effect() == Some(EffectView::Connect)
            &&& inserting.effect() == Some(EffectView::InsertLink(link))
            &&& enqueuing.effect() == Some(EffectView::Enqueue(link))
            &&& enqueuing.after(enqueued) == CreateView::Finished(Ok(link))
            &&& (ShowView::Finding { id }).after(shown) == ShowView::Finished(Ok(link))
        }),
{
    let link = link::unseen_link(url, id);
    let after = updated(table, EffectView::InsertLink(link));
    lemma_table_stays_keyed(table, EffectView::InsertLink(link));
    lemma_show_answers_the_row(after, id, shown);
}

/// A link that was deleted is not found any more, cannot be deleted again, and no other link is
/// affected.
pub proof fn lemma_deleted_link_is_gone(
    table: Map<Seq<char>, RowView>,
    id: Seq<char>,
    transcode_folder: Seq<char>,
    deleted: ReplyView,
    shown: ReplyView,
    again: ReplyView,
)
    requires
        is_keyed(table),
        table.dom().contains(id),
        serves(table, EffectView::DeleteLink { id }, deleted),
        serves(
            updated(table, EffectView::DeleteLink { id }),
            EffectView::FindLink { id },
            shown,
        ),
        serves(
            updated(table, EffectView::DeleteLink { id }),
            EffectView::DeleteLink { id },
            again,
        ),
    ensures
        ({
            let deleting = DeleteView::Deleting { id, transcode_folder };
            &&& deleting.effect() == Some(EffectView::DeleteLink { id })
            &&& deleting.after(deleted).effect() == Some(
                EffectView::RemoveFile { path: path::joined(transcode_folder, id) },
            )
            &&& (ShowView::Finding { id }).after(shown) == ShowView::Finished(
                Err::<LinkView, FailureView>(
                    FailureView { status: error::NOT_FOUND, message: "File not found"@ },
                ),
            )
            &&& deleting.after(again) matches DeleteView::Finished(Err(failure)) && failure.status
                == error::INTERNAL_SERVER_ERROR
        }),
        forall|other: Seq<char>|
            other != id ==> {
                &&& #[trigger] updated(table, EffectView::DeleteLink { id }).dom().contains(other)
                    == table.dom().contains(other)
                &&& updated(table, EffectView::DeleteLink { id })[other] == table[other]
            },
{
    lemma_table_stays_keyed(table, EffectView::DeleteLink { id });
    lemma_show_answers_the_row(updated(table, EffectView::DeleteLink { id }), id, shown);
}

/// The list of all links has each link of the table once, and no other: no two links in it share an
/// identifier.
pub proof fn lemma_list_has_every_link(table: Map<Seq<char>, RowView>, reply: ReplyView)
    requires
        is_keyed(table),
        serves(table, EffectView::ListLinks, reply),
    ensures
        ListView::Listing.effect() == Some(EffectView::ListLinks),
        ({
            &&& ListView::Listing.after(reply) matches ListView::Finished(Ok(links))
            &&& forall|link: LinkView| #[trigger]
                links.contains(link) <==> has_link(table, link)
            &&& links.no_duplicates()
            &&& forall|i: int, j: int|
                0 <= i < j < links.len() ==> (#[trigger] links[i]).id != (#[trigger] links[j]).id
        }),
{
    let links = reply->Rows_0->Ok_0;
    assert forall|i: int, j: int| 0 <= i < j < links.len() implies (#[trigger] links[i]).id != (
    #[trigger] links[j]).id by {
        assert(links.contains(links[i]) && links.contains(links[j]));
        assert(has_link(table, links[i]) && has_link(table, links[j]));
    }
}

/// The two ways to ask for links agree: a request for one link is answered with a link exactly
/// where the list has one with that identifier, and then with that one. No two links in the list
/// share an identifier.
pub proof fn lemma_list_agrees_with_show(
    table: Map<Seq<char>, RowView>,
    connected: ReplyView,
    listed: ReplyView,
    id: Seq<char>,
    shown: ReplyView,
)
    requires
        is_keyed(table),
        serves(table, EffectView::Connect, connected),
        serves(table, EffectView::ListLinks, listed),
        serves(table, EffectView::FindLink { id }, shown),
    ensures
        ({
            let list = ListView::Connecting.after(connected);
            let show = (ShowView::Connecting { id }).after(connected);
            &&& list.effect() == Some(EffectView::ListLinks)
            &&& show.effect() == Some(EffectView::FindLink { id })
            &&& list.after(listed) matches ListView::Finished(Ok(links))
            &&& show.after(shown) matches ShowView::Finished(answer)
            &&& answer is Ok <==> exists|i: int| 0 <= i < links.len() && (#[trigger] links[i]).id == id
            &&& forall|i: int|
                0 <= i < links.len() && (#[trigger] links[i]).id == id ==> answer
                    == Ok::<LinkView, FailureView>(links[i])
            &&& forall|i: int, j: int|
                0 <= i < j < links.len() ==> (#[trigger] links[i]).id != (#[trigger] links[j]).id
        }),
{
    lemma_list_has_every_link(table, listed);
    lemma_show_answers_the_row(table, id, shown);
    let links = listed->Rows_0->Ok_0;
    assert forall|i: int| 0 <= i < links.len() && (#[trigger] links[i]).id == id implies has_link(
        table,
        links[i],
    ) by {
        assert(links.contains(links[i]));
    }
    if table.dom().contains(id) {
        assert(has_link(table, table[id].link));
        assert(links.contains(table[id].link));
    }
}

/// A job on a link to a known address gives the link the hash of another link to that address, and
/// changes nothing else in the table.
pub proof fn lemma_twin_gives_its_hash(
    table: Map<Seq<char>, RowView>,
    job: ProcessView,
    found: ReplyView,
    twin: LinkView,
)
    requires
        is_keyed(table),
        job.stage is FindingTwins,
        table.dom().contains(job.link.id),
        has_link(table, twin),
        twin.url == job.link.url,
        twin.id != job.link.id,
        serves(
            table,
            EffectView::FindTwins { url: job.link.url, id: job.link.id },
            found,
        ),
    ensures
        job.effect() == Some(EffectView::FindTwins { url: job.link.url, id: job.link.id }),
        exists|other: LinkView|
            {
                let adopt = EffectView::SetHash {
                    id: job.link.id,
                    original_hash: other.original_hash,
                };
                let row = table[job.link.id];
                &&& #[trigger] has_link(table, other)
                &&& other.url == job.link.url
                &&& other.id != job.link.id
                &&& job.after(found).effect() == Some(adopt)
                &&& updated(table, adopt) == table.insert(
                    job.link.id,
                    RowView {
                        link: LinkView { original_hash: other.original_hash, ..row.link },
                        ..row
                    },
                )
            },
        forall|written: ReplyView| #[trigger]
            process_laws::is_written(written) ==> process_laws::succeeded(
                job.after(found).after(written),
            ),
{
    let effect = EffectView::FindTwins { url: job.link.url, id: job.link.id };
    let links = found->Rows_0->Ok_0;
    assert(selects(effect, twin));
    assert(links.contains(twin));
    let other = links[0];
    assert(links.contains(other));
    assert(has_link(table, other));
    assert(job.after(found).stage == StageView::AdoptingHash(other.original_hash));
}

/// A job transcodes what it downloaded exactly where no link in the table has its hash.
pub proof fn lemma_known_content_is_recognised(
    table: Map<Seq<char>, RowView>,
    job: ProcessView,
    hash: Seq<char>,
    found: ReplyView,
    written: ReplyView,
)
    requires
        is_keyed(table),
        job.stage == StageView::FindingCopies(hash),
        serves(table, EffectView::FindByHash { hash }, found),
        process_laws::is_written(written),
    ensures
        job.effect() == Some(EffectView::FindByHash { hash }),
        job.after(found).effect() == Some(
            EffectView::SetHash { id: job.link.id, original_hash: Some(hash) },
        ),
        job.after(found).after(written).stage == if exists|id: Seq<char>| #[trigger]
            table.dom().contains(id) && table[id].link.original_hash == Some(hash) {
            StageView::RemovingDownload
        } else {
            StageView::Probing
        },
{
    let effect = EffectView::FindByHash { hash };
    let links = found->Rows_0->Ok_0;
    if exists|id: Seq<char>| #[trigger]
        table.dom().contains(id) && table[id].link.original_hash == Some(hash) {
        let id = choose|id: Seq<char>| #[trigger]
            table.dom().contains(id) && table[id].link.original_hash == Some(hash);
        assert(has_link(table, table[id].link) && selects(effect, table[id].link));
        assert(links.contains(table[id].link));
    }
    if links.len() > 0 {
        assert(links.contains(links[0]));
        assert(table.dom().contains(links[0].id));
    }
}

/// Whether the table has a link to this address.
pub open spec fn knows_address(table: Map<Seq<char>, RowView>, url: Seq<char>) -> bool {
    exists|link: LinkView| #[trigger] has_link(table, link) && link.url == url
}

/// Once a link to an address is added, the address is known.
pub proof fn lemma_added_address_is_known(
    table: Map<Seq<char>, RowView>,
    url: Seq<char>,
    id: Seq<char>,
)
    requires
        !table.dom().contains(id),
    ensures
        knows_address(updated(table, EffectView::InsertLink(link::unseen_link(url, id))), url),
{
    let link = link::unseen_link(url, id);
    assert(has_link(updated(table, EffectView::InsertLink(link)), link));
}

/// A known address stays known, whatever is done but to delete a link to it.
pub proof fn lemma_address_stays_known(
    table: Map<Seq<char>, RowView>,
    effect: EffectView,
    url: Seq<char>,
)
    requires
        is_keyed(table),
        knows_address(table, url),
        effect matches EffectView::DeleteLink { id } ==> {
            table.dom().contains(id) ==> table[id].link.url != url
        },
    ensures
        knows_address(updated(table, effect), url),
{
    let link = choose|link: LinkView| #[trigger] has_link(table, link) && link.url == url;
    let after = updated(table, effect);
    assert(after.dom().contains(link.id));
    assert(has_link(after, after[link.id].link));
}

/// A known address is not added again: a request for it finds a link to it, and works on that.
pub proof fn lemma_address_is_added_once(
    table: Map<Seq<char>, RowView>,
    request: DirectView,
    url: Seq<char>,
    found: ReplyView,
    any_id: Seq<char>,
)
    requires
        is_keyed(table),
        knows_address(table, url),
        request.stage == (DirectStageView::Finding { url }),
        serves(table, EffectView::FindByUrl { url }, found),
    ensures
        request.effect() == Some(EffectView::FindByUrl { url }),
        !request.adds_link(found),
        request.after(found, any_id).stage matches DirectStageView::Processing(job)
            && job.link.url == url && has_link(table, job.link),
{
    let effect = EffectView::FindByUrl { url };
    let known = choose|known: LinkView| #[trigger] has_link(table, known) && known.url == url;
    let links = found->Rows_0->Ok_0;
    assert(selects(effect, known));
    assert(links.contains(known));
    assert(links.contains(links[0]));
    assert(has_link(table, links[0]) && selects(effect, links[0]));
}

/// The note on a job goes to the row of its own link: the error where it failed, and that it is
/// finished where it did not.
pub proof fn lemma_note_tells_how_the_job_ended(
    table: Map<Seq<char>, RowView>,
    job: ProcessView,
)
    requires
        table.dom().contains(job.link.id),
        job.outcome() is Some,
    ensures
        updated(table, tasks::note_on(job)) == table.insert(
            job.link.id,
            match job.outcome()->0 {
                Ok(_) => RowView { finished: true, ..table[job.link.id] },
                Err(error) => RowView { error: Some(error.text()), ..table[job.link.id] },
            },
        ),
{
}

} // verus!
