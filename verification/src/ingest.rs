//! Ingestion: a submitted batch is persisted ad by ad, in order, and the
//! first failure ends it. What was persisted before the failure stays.

use vstd::prelude::*;
use vstd::utf8::{decode_utf8, valid_utf8};

use crate::http::{Response, ResponseView, Status};
use crate::model::{Ad, AdPost, AdView, StorageError};
use crate::text::from_utf8;

verus! {

/// Why a batch was not ingested.
#[derive(Clone, Debug, PartialEq, Eq)]
pub enum IngestError {
    /// The request stated no usable language preference.
    MissingLocale,
    /// The body of the request could not be read.
    UnreadableBody,
    /// The body is no UTF-8 text.
    InvalidEncoding,
    /// The body is no JSON array of submitted ads.
    InvalidSyntax,
    /// The storage refused an ad; this is what it said.
    Storage(StorageError),
}

impl IngestError {
    /// The status that the error is answered with: whatever went wrong, the
    /// request was a bad one.
    pub open spec fn spec_status(&self) -> Status {
        Status::BadRequest
    }

    /// The status that the error is answered with.
    #[verifier::when_used_as_spec(spec_status)]
    pub fn status(&self) -> (status: Status)
        ensures
            status == self.spec_status(),
    {
        Status::BadRequest
    }
}

/// What the storage answers when it is handed an ad: the ad as it is stored,
/// or its failure.
pub type Outcome = Result<Ad, StorageError>;

/// The text of a request body: that which its bytes encode.
pub open spec fn body_text_of(body: Option<Seq<u8>>) -> Result<Seq<char>, IngestError> {
    match body {
        None => Err(IngestError::UnreadableBody),
        Some(bytes) => if valid_utf8(bytes) {
            Ok(decode_utf8(bytes))
        } else {
            Err(IngestError::InvalidEncoding)
        },
    }
}

/// Reads the body of an ingestion request as text. `None` stands for a body
/// that could not be read.
pub fn body_text(body: Option<Vec<u8>>) -> (text: Result<String, IngestError>)
    ensures
        match text {
            Ok(t) => body_text_of(body.deep_view()) == Ok::<Seq<char>, IngestError>(t@),
            Err(e) => body_text_of(body.deep_view()) == Err::<Seq<char>, IngestError>(e),
        },
{
    match body {
        None => Err(IngestError::UnreadableBody),
        Some(bytes) => {
            assert(bytes.deep_view() =~= bytes@);
            match from_utf8(bytes) {
                Some(text) => Ok(text),
                None => Err(IngestError::InvalidEncoding),
            }
        },
    }
}

/// A batch of which at least one ad is still to be persisted.
pub struct Batch {
    lang: String,
    posts: Vec<AdPost>,
    saved: Vec<Ad>,
}

impl Batch {
    #[verifier::type_invariant]
    spec fn well_formed(self) -> bool {
        self.saved@.len() < self.posts@.len()
    }

    /// The locale that the batch is ingested in.
    pub closed spec fn lang(self) -> Seq<char> {
        self.lang@
    }

    /// The submitted ads, in the order submitted.
    pub closed spec fn posts(self) -> Seq<AdPost> {
        self.posts@
    }

    /// The ads that the storage has persisted so far, in order.
    pub closed spec fn saved(self) -> Seq<Ad> {
        self.saved@
    }

    /// The mathematical value of the batch.
    pub open spec fn view(self) -> IngestionView {
        IngestionView::Pending { lang: self.lang(), posts: self.posts(), saved: self.saved() }
    }

    /// The submitted ad that is to be persisted next.
    pub fn current(&self) -> (post: &AdPost)
        ensures
            self.saved().len() < self.posts().len(),
            *post == self.posts()[self.saved().len() as int],
    {
        proof {
            use_type_invariant(self);
        }
        &self.posts[self.saved.len()]
    }

    /// The ad to hand to the storage next: the submitted ad that is to be
    /// persisted next, made an ad of the locale of the batch.
    pub fn draft(&self) -> (ad: Ad)
        ensures
            self.saved().len() < self.posts().len(),
            ad.deep_view() == AdView::created(
                self.posts()[self.saved().len() as int].deep_view(),
                self.lang(),
            ),
    {
        proof {
            use_type_invariant(self);
        }
        Ad::new(&self.posts[self.saved.len()], self.lang.as_str())
    }
}

/// Where an ingestion stands.
pub enum Ingestion {
    /// The storage is to persist [`Batch::draft`], and [`step`] is to be told
    /// what became of it.
    Pending(Batch),
    /// It is over: with every ad persisted, or with the failure that ended it.
    Done(Result<Vec<Ad>, IngestError>),
}

/// The mathematical value of an [`Ingestion`].
pub enum IngestionView {
    Pending { lang: Seq<char>, posts: Seq<AdPost>, saved: Seq<Ad> },
    Done(Result<Seq<Ad>, IngestError>),
}

impl Ingestion {
    /// The mathematical value of the ingestion.
    pub open spec fn view(self) -> IngestionView {
        match self {
            Ingestion::Pending(batch) => batch.view(),
            Ingestion::Done(Ok(ads)) => IngestionView::Done(Ok(ads@)),
            Ingestion::Done(Err(e)) => IngestionView::Done(Err(e)),
        }
    }
}

/// An ingestion at its start: over at once where nothing was submitted, else
/// waiting for the first ad to be persisted.
pub open spec fn begun(lang: Seq<char>, posts: Seq<AdPost>) -> IngestionView {
    if posts.len() == 0 {
        IngestionView::Done(Ok(Seq::empty()))
    } else {
        IngestionView::Pending { lang, posts, saved: Seq::empty() }
    }
}

/// An ingestion after the storage has answered once. A failure ends it. A
/// persisted ad joins those persisted before, and ends it where it was the
/// last one submitted. An ingestion that is over stays as it is.
pub open spec fn stepped(state: IngestionView, outcome: Outcome) -> IngestionView {
    match state {
        IngestionView::Pending { lang, posts, saved } => match outcome {
            Err(e) => IngestionView::Done(Err(IngestError::Storage(e))),
            Ok(ad) => if saved.len() + 1 >= posts.len() {
                IngestionView::Done(Ok(saved.push(ad)))
            } else {
                IngestionView::Pending { lang, posts, saved: saved.push(ad) }
            },
        },
        IngestionView::Done(result) => IngestionView::Done(result),
    }
}

/// Starts the ingestion of a batch in a locale.
pub fn begin(lang: String, posts: Vec<AdPost>) -> (state: Ingestion)
    ensures
        state@ == begun(lang@, posts@),
{
    if posts.len() == 0 {
        Ingestion::Done(Ok(Vec::new()))
    } else {
        Ingestion::Pending(Batch { lang, posts, saved: Vec::new() })
    }
}

/// Takes in what the storage answered when it was handed [`Batch::draft`].
pub fn step(batch: Batch, outcome: Outcome) -> (state: Ingestion)
    ensures
        state@ == stepped(batch@, outcome),
{
    proof {
        use_type_invariant(&batch);
    }
    match outcome {
        Err(e) => Ingestion::Done(Err(IngestError::Storage(e))),
        Ok(ad) => {
            let Batch { lang, posts, mut saved } = batch;
            saved.push(ad);
            if saved.len() >= posts.len() {
                Ingestion::Done(Ok(saved))
            } else {
                Ingestion::Pending(Batch { lang, posts, saved })
            }
        },
    }
}


/// What an ingestion is answered with, and the ads whose media are then to be
/// fetched, each in a task of its own that nobody waits for. A batch that was
/// persisted whole is answered with success and no body, and every ad of it
/// is enriched. Anything else is answered as a bad request, and nothing is
/// enriched.
pub open spec fn settled(result: Result<Seq<Ad>, IngestError>) -> (ResponseView, Seq<Ad>) {
    match result {
        Ok(ads) => (ResponseView::bare(Status::Success), ads),
        Err(e) => (ResponseView::bare(e.spec_status()), Seq::empty()),
    }
}

/// Ends an ingestion: the response, and the ads to enrich.
pub fn settle(result: Result<Vec<Ad>, IngestError>) -> (end: (Response, Vec<Ad>))
    ensures
        (end.0.deep_view(), end.1@) == settled(
            match result {
                Ok(ads) => Ok(ads@),
                Err(e) => Err(e),
            },
        ),
{
    match result {
        Ok(ads) => (Response::bare(Status::Success), ads),
        Err(e) => (Response::bare(e.status()), Vec::new()),
    }
}

/// An ingestion after the storage has answered several times in a row.
pub open spec fn run(state: IngestionView, outcomes: Seq<Outcome>) -> IngestionView
    decreases outcomes.len(),
{
    if outcomes.len() == 0 {
        state
    } else {
        run(stepped(state, outcomes[0]), outcomes.drop_first())
    }
}

/// The submitted ads that the storage was handed, and answered for, while an
/// ingestion took in these outcomes.
pub open spec fn handed(state: IngestionView, outcomes: Seq<Outcome>) -> Seq<AdPost>
    decreases outcomes.len(),
{
    if outcomes.len() == 0 {
        Seq::empty()
    } else {
        match state {
            IngestionView::Pending { lang, posts, saved } => seq![posts[saved.len() as int]]
                + handed(stepped(state, outcomes[0]), outcomes.drop_first()),
            IngestionView::Done(_) => Seq::empty(),
        }
    }
}

/// The ads inside a row of outcomes that are all successes.
pub open spec fn persisted(outcomes: Seq<Outcome>) -> Seq<Ad> {
    Seq::new(outcomes.len(), |j: int| outcomes[j]->Ok_0)
}

proof fn lemma_done_stays(result: Result<Seq<Ad>, IngestError>, outcomes: Seq<Outcome>)
    ensures
        run(IngestionView::Done(result), outcomes) == IngestionView::Done(result),
        handed(IngestionView::Done(result), outcomes) == Seq::<AdPost>::empty(),
    decreases outcomes.len(),
{
    if outcomes.len() > 0 {
        lemma_done_stays(result, outcomes.drop_first());
    }
}

proof fn lemma_failure_from(
    lang: Seq<char>,
    posts: Seq<AdPost>,
    saved: Seq<Ad>,
    outcomes: Seq<Outcome>,
    k: int,
)
    requires
        0 <= k < outcomes.len(),
        saved.len() + k < posts.len(),
        outcomes[k] is Err,
        forall|j: int| 0 <= j < k ==> (#[trigger] outcomes[j]) is Ok,
    ensures
        run(IngestionView::Pending { lang, posts, saved }, outcomes) == IngestionView::Done(
            Err(IngestError::Storage(outcomes[k]->Err_0)),
        ),
        handed(IngestionView::Pending { lang, posts, saved }, outcomes) == posts.subrange(
            saved.len() as int,
            saved.len() + k + 1,
        ),
    decreases k,
{
    let state = IngestionView::Pending { lang, posts, saved };
    let rest = outcomes.drop_first();
    if k == 0 {
        lemma_done_stays(Err(IngestError::Storage(outcomes[0]->Err_0)), rest);
        assert(handed(state, outcomes) =~= posts.subrange(
            saved.len() as int,
            saved.len() as int + 1,
        ));
    } else {
        assert(outcomes[0] is Ok);
        let next = saved.push(outcomes[0]->Ok_0);
        assert(rest[k - 1] == outcomes[k]);
        assert forall|j: int| 0 <= j < k - 1 implies (#[trigger] rest[j]) is Ok by {
            assert(rest[j] == outcomes[j + 1]);
        }
        lemma_failure_from(lang, posts, next, rest, k - 1);
        assert(handed(state, outcomes) =~= posts.subrange(
            saved.len() as int,
            saved.len() + k + 1,
        ));
    }
}

proof fn lemma_success_from(
    lang: Seq<char>,
    posts: Seq<AdPost>,
    saved: Seq<Ad>,
    outcomes: Seq<Outcome>,
)
    requires
        saved.len() < posts.len(),
        saved.len() + outcomes.len() == posts.len(),
        forall|j: int| 0 <= j < outcomes.len() ==> (#[trigger] outcomes[j]) is Ok,
    ensures
        run(IngestionView::Pending { lang, posts, saved }, outcomes) == IngestionView::Done(
            Ok(saved + persisted(outcomes)),
        ),
        handed(IngestionView::Pending { lang, posts, saved }, outcomes) == posts.subrange(
            saved.len() as int,
            posts.len() as int,
        ),
    decreases outcomes.len(),
{
    let state = IngestionView::Pending { lang, posts, saved };
    let rest = outcomes.drop_first();
    assert(outcomes[0] is Ok);
    let next = saved.push(outcomes[0]->Ok_0);
    assert forall|j: int| 0 <= j < rest.len() implies (#[trigger] rest[j]) is Ok by {
        assert(rest[j] == outcomes[j + 1]);
    }
    assert(next + persisted(rest) =~= saved + persisted(outcomes));
    if rest.len() == 0 {
        lemma_done_stays(Ok(next), rest);
    } else {
        lemma_success_from(lang, posts, next, rest);
    }
    assert(handed(state, outcomes) =~= posts.subrange(saved.len() as int, posts.len() as int));
}

/// The first failure ends an ingestion, and undoes nothing. Where the storage
/// persists the first `k` ads of a batch and refuses the next, the ingestion
/// is over with that refusal and returns no ad; the storage was handed the
/// first `k + 1` ads, in order, and no other, whatever it would have said of
/// the rest.
pub proof fn law_first_failure_ends_ingestion(
    lang: Seq<char>,
    posts: Seq<AdPost>,
    outcomes: Seq<Outcome>,
    k: int,
)
    requires
        0 <= k < posts.len(),
        k < outcomes.len(),
        outcomes[k] is Err,
        forall|j: int| 0 <= j < k ==> (#[trigger] outcomes[j]) is Ok,
    ensures
        run(begun(lang, posts), outcomes) == IngestionView::Done(
            Err(IngestError::Storage(outcomes[k]->Err_0)),
        ),
        handed(begun(lang, posts), outcomes) == posts.take(k + 1),
        settled(Err(IngestError::Storage(outcomes[k]->Err_0))) == (
            ResponseView::bare(Status::BadRequest),
            Seq::<Ad>::empty(),
        ),
{
    lemma_failure_from(lang, posts, Seq::empty(), outcomes, k);
    assert(posts.subrange(0, k + 1) =~= posts.take(k + 1));
}

/// Where the storage persists every ad of a batch, the ingestion is over
/// with the persisted ads, in the order submitted; the storage was handed
/// each submitted ad once, in that order.
pub proof fn law_whole_batch_is_returned(
    lang: Seq<char>,
    posts: Seq<AdPost>,
    outcomes: Seq<Outcome>,
)
    requires
        outcomes.len() == posts.len(),
        forall|j: int| 0 <= j < outcomes.len() ==> (#[trigger] outcomes[j]) is Ok,
    ensures
        run(begun(lang, posts), outcomes) == IngestionView::Done(Ok(persisted(outcomes))),
        handed(begun(lang, posts), outcomes) == posts,
{
    if posts.len() == 0 {
        assert(persisted(outcomes) =~= Seq::<Ad>::empty());
    } else {
        lemma_success_from(lang, posts, Seq::empty(), outcomes);
        assert(Seq::<Ad>::empty() + persisted(outcomes) =~= persisted(outcomes));
        assert(posts.subrange(0, posts.len() as int) =~= posts);
    }
}

} // verus!
