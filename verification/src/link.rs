//! Links, as the store keeps them.
use vstd::prelude::*;

verus! {

/// A link and what is known of the file behind it.
#[derive(Debug)]
pub struct Link {
    pub id: String,
    pub url: String,
    pub original_hash: Option<String>,
    pub transcoded_hash: Option<String>,
}

/// The model of a [`Link`].
pub struct LinkView {
    pub id: Seq<char>,
    pub url: Seq<char>,
    pub original_hash: Option<Seq<char>>,
    pub transcoded_hash: Option<Seq<char>>,
}

/// A link of which nothing is known but its address and its identifier.
pub open spec fn unseen_link(url: Seq<char>, id: Seq<char>) -> LinkView {
    LinkView { id, url, original_hash: None, transcoded_hash: None }
}

/// The models of a list of links.
pub open spec fn links_view(links: Seq<Link>) -> Seq<LinkView> {
    links.map_values(|link: Link| link@)
}

impl View for Link {
    type V = LinkView;

    open spec fn view(&self) -> LinkView {
        LinkView {
            id: self.id@,
            url: self.url@,
            original_hash: self.original_hash.deep_view(),
            transcoded_hash: self.transcoded_hash.deep_view(),
        }
    }
}

impl Clone for Link {
    fn clone(&self) -> (res: Self)
        ensures
            res@ == self@,
            res.id@ == self.id@,
            res.url@ == self.url@,
            res.original_hash.deep_view() == self.original_hash.deep_view(),
            res.transcoded_hash.deep_view() == self.transcoded_hash.deep_view(),
    {
        Link {
            id: self.id.clone(),
            url: self.url.clone(),
            original_hash: self.original_hash.clone(),
            transcoded_hash: self.transcoded_hash.clone(),
        }
    }
}

impl Default for Link {
    fn default() -> (res: Self)
        ensures
            res@ == unseen_link(Seq::empty(), Seq::empty()),
            res.id@.len() == 0,
            res.url@.len() == 0,
            res.original_hash is None,
            res.transcoded_hash is None,
    {
        Link { id: String::new(), url: String::new(), original_hash: None, transcoded_hash: None }
    }
}

impl Link {
    /// The link to `url` under the given identifier.
    pub fn with_id(url: String, id: String) -> (link: Link)
        ensures
            link@ == unseen_link(url@, id@),
            link.id@ == id@,
            link.url@ == url@,
            link.original_hash is None,
            link.transcoded_hash is None,
    {
        Link { url, id, ..Default::default() }
    }
}

/// What a client sends to have a link created.
#[derive(Debug)]
pub struct NewLink {
    pub url: String,
}

/// Of a link that nothing was done with yet, the address and the identifier are known and no hash.
pub proof fn lemma_unseen_link_has_no_hash(url: Seq<char>, id: Seq<char>)
    ensures
        unseen_link(url, id).id == id,
        unseen_link(url, id).url == url,
        unseen_link(url, id).original_hash is None,
        unseen_link(url, id).transcoded_hash is None,
{
}

/// The model of a link has what the link has, field by field.
pub proof fn lemma_model_of_a_link(link: Link)
    ensures
        link@.id == link.id@,
        link@.url == link.url@,
        link@.original_hash == match link.original_hash {
            Some(hash) => Some(hash@),
            None => None,
        },
        link@.transcoded_hash == match link.transcoded_hash {
            Some(hash) => Some(hash@),
            None => None,
        },
{
}

/// The models of a list of links come one for each link, in their order.
pub proof fn lemma_models_of_links(links: Seq<Link>)
    ensures
        links_view(links).len() == links.len(),
        forall|i: int| 0 <= i < links.len() ==> #[trigger] links_view(links)[i] == links[i]@,
{
}

} // verus!
