pub mod discord;
pub mod html;
pub mod schedule;
pub mod stackapps;

use vstd::prelude::*;

use crate::discord::{Embed, EmbedAuthor, Message};
use crate::html::{fragment_edges, rendered};
use crate::stackapps::{question_url_of, SearchExcerpt};

verus! {

/// Why one cycle of fetch, pick and deliver did not complete.
#[derive(Clone, Copy, Debug, PartialEq, Eq, Structural)]
pub enum CycleError {
    /// An HTTP exchange failed, or answered with the given non-success status.
    Transport { status: Option<u16> },
    /// A response body did not have the expected shape.
    Decode,
    /// No source returned any item.
    EmptyResult,
}

/// Accepts a 2xx status and refuses any other.
pub fn check_status(status: u16) -> (r: Result<(), CycleError>)
    ensures
        r is Ok <==> 200 <= status < 300,
        r is Err ==> r == Err::<(), CycleError>(CycleError::Transport { status: Some(status) }),
{
    if 200 <= status && status < 300 {
        Ok(())
    } else {
        Err(CycleError::Transport { status: Some(status) })
    }
}

/// The notification that presents `x`, found on `site`.
pub open spec fn is_message_for(m: Message, site: Seq<char>, x: SearchExcerpt) -> bool {
    &&& m.embeds@.len() == 1
    &&& m.embeds@[0].title@ == rendered(fragment_edges(x.title@))
    &&& m.embeds@[0].description@ == rendered(fragment_edges(x.excerpt@))
    &&& m.embeds@[0].url@ == question_url_of(site, x.question_id as nat)
    &&& m.embeds@[0].timestamp == x.creation_date
    &&& m.embeds@[0].author.name@ == site
    &&& m.embeds@[0].author.url@ == "https://"@ + site
}

/// Builds the notification for one excerpt of `site`.
pub fn make_message(site: &str, excerpt: SearchExcerpt) -> (r: Message)
    ensures
        is_message_for(r, site@, excerpt),
{
    let title = excerpt.sanitized_title();
    let description = excerpt.sanitized_excerpt();
    let url = excerpt.question_url(site);
    let mut author_url = String::from_str("https://");
    author_url.append(site);
    let embed = Embed {
        title,
        description,
        url,
        timestamp: excerpt.creation_date,
        author: EmbedAuthor { name: String::from_str(site), url: author_url },
    };
    let mut embeds: Vec<Embed> = Vec::new();
    embeds.push(embed);
    Message { embeds }
}

/// Relies on rand's `thread_rng` and `Rng::gen_range`, which returns a value
/// of the half-open range and panics only when the range is empty.
#[verifier::external_body]
fn random_index(len: usize) -> (r: usize)
    requires
        len > 0,
    ensures
        r < len,
{
    rand::Rng::gen_range(&mut rand::thread_rng(), 0..len)
}

/// Takes the candidate at `index`; fails when there is no candidate at all.
/// A candidate is an excerpt tagged with the position of its source.
pub fn select_excerpt(candidates: Vec<(usize, SearchExcerpt)>, index: usize) -> (r: Result<
    (usize, SearchExcerpt),
    CycleError,
>)
    requires
        candidates@.len() == 0 || index < candidates@.len(),
    ensures
        candidates@.len() == 0 ==> r == Err::<(usize, SearchExcerpt), CycleError>(
            CycleError::EmptyResult,
        ),
        candidates@.len() > 0 ==> r == Ok::<(usize, SearchExcerpt), CycleError>(
            candidates@[index as int],
        ),
{
    if candidates.len() == 0 {
        return Err(CycleError::EmptyResult);
    }
    let mut candidates = candidates;
    Ok(candidates.remove(index))
}

/// Picks one candidate at random, each with the same chance, so that a
/// source with more items is picked more often; fails when there is none.
pub fn pick_excerpt(candidates: Vec<(usize, SearchExcerpt)>) -> (r: Result<
    (usize, SearchExcerpt),
    CycleError,
>)
    ensures
        candidates@.len() == 0 ==> r == Err::<(usize, SearchExcerpt), CycleError>(
            CycleError::EmptyResult,
        ),
        candidates@.len() > 0 ==> exists|i: int|
            0 <= i < candidates@.len() && r == Ok::<(usize, SearchExcerpt), CycleError>(
                #[trigger] candidates@[i],
            ),
{
    if candidates.len() == 0 {
        return Err(CycleError::EmptyResult);
    }
    let index = random_index(candidates.len());
    let ghost all = candidates@;
    let r = select_excerpt(candidates, index);
    assert(r == Ok::<(usize, SearchExcerpt), CycleError>(all[index as int]));
    r
}

} // verus!
