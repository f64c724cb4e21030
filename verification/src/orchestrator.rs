//! The course of one source page, as a machine that decides and never acts.
//!
//! Fetching a page, fetching an image and saving it are done by the caller.
//! The machine says which of them is due, and takes what came of it as the
//! next event. A failure ends the course of this source only.

use vstd::prelude::*;
use crate::extractor::{extract_features, features_of, Features, FeaturesView};
use crate::markup::{markup_tree, parse_document, ParseError};
use crate::tree::{DocumentTree, DocumentTreeView, TreeError};
use crate::url_base::{
    derive_site_root, resolve, site_root_of, stable_join, stable_parse, AbsoluteUrl, SiteBase,
    UrlError,
};

verus! {

/// What a page told: the parser's remarks and the features.
#[derive(Clone, Debug, PartialEq, Eq)]
pub struct PageReport {
    pub diagnostics: Vec<String>,
    pub features: Features,
}

/// How the course of a source ended.
#[derive(Debug, PartialEq, Eq)]
pub enum Outcome {
    /// The source's address is no URL, or one without a site root.
    UrlRejected { error: UrlError },
    /// The page could not be fetched.
    PageUnavailable,
    /// The page could not be read as a document.
    MarkupRejected { error: ParseError },
    /// The document is not one tree.
    TreeRejected { diagnostics: Vec<String>, error: TreeError },
    /// The page names no image.
    NoImage { report: PageReport },
    /// The page names an image by a reference that cannot be resolved.
    ImageUnresolvable { report: PageReport, error: UrlError },
    /// The image could not be fetched.
    ImageUnavailable,
    /// The image could not be saved.
    ImageNotSaved,
    /// The image was saved.
    ImageSaved,
    /// An event came that the state was not waiting for.
    OutOfTurn,
}

/// What the caller is to do next.
#[derive(Debug, PartialEq, Eq)]
pub enum Action {
    /// Fetch the text of the page at `url`.
    FetchPage { url: String },
    /// Make the report known, and fetch the bytes of the image at `url`.
    FetchImage { report: PageReport, url: AbsoluteUrl },
    /// Save the bytes of the image.
    SaveImage { bytes: Vec<u8> },
    /// Nothing more: the course of this source has ended.
    Stop { outcome: Outcome },
}

/// What the machine is waiting for.
#[derive(Debug, PartialEq, Eq)]
pub enum SourceState {
    /// For the text of the page.
    AwaitingPage { base: SiteBase },
    /// For the bytes of the image.
    AwaitingImage,
    /// For word that the image was saved.
    AwaitingSave,
    /// For nothing.
    Finished,
}

/// What came of an action. `None` and `false` stand for failure.
#[derive(Clone, Debug, PartialEq, Eq)]
pub enum SourceEvent {
    PageFetched { body: Option<String> },
    ImageFetched { bytes: Option<Vec<u8>> },
    ImageSaved { saved: bool },
}

/// A decision of the machine: its next state, and what is due.
#[derive(Debug, PartialEq, Eq)]
pub struct Step {
    pub state: SourceState,
    pub action: Action,
}

/// What a report is, mathematically.
pub struct PageReportView {
    pub diagnostics: Seq<Seq<char>>,
    pub features: FeaturesView,
}

/// What an outcome is, mathematically.
pub enum OutcomeView {
    UrlRejected { error: UrlError },
    PageUnavailable,
    MarkupRejected { message: Seq<char> },
    TreeRejected { diagnostics: Seq<Seq<char>>, error: TreeError },
    NoImage { report: PageReportView },
    ImageUnresolvable { report: PageReportView, error: UrlError },
    ImageUnavailable,
    ImageNotSaved,
    ImageSaved,
    OutOfTurn,
}

/// What an action is, mathematically.
pub enum ActionView {
    FetchPage { url: Seq<char> },
    FetchImage { report: PageReportView, url: Seq<char> },
    SaveImage { bytes: Seq<u8> },
    Stop { outcome: OutcomeView },
}

/// What a state is, mathematically.
pub enum SourceStateView {
    AwaitingPage { base: Seq<char> },
    AwaitingImage,
    AwaitingSave,
    Finished,
}

/// What an event is, mathematically.
pub enum SourceEventView {
    PageFetched { body: Option<Seq<char>> },
    ImageFetched { bytes: Option<Seq<u8>> },
    ImageSaved { saved: bool },
}

/// What a step is, mathematically.
pub struct StepView {
    pub state: SourceStateView,
    pub action: ActionView,
}

impl View for PageReport {
    type V = PageReportView;

    open spec fn view(&self) -> PageReportView {
        PageReportView { diagnostics: self.diagnostics.deep_view(), features: self.features@ }
    }
}

impl View for Outcome {
    type V = OutcomeView;

    open spec fn view(&self) -> OutcomeView {
        match self {
            Outcome::UrlRejected { error } => OutcomeView::UrlRejected { error: *error },
            Outcome::PageUnavailable => OutcomeView::PageUnavailable,
            Outcome::MarkupRejected { error } => OutcomeView::MarkupRejected {
                message: error.message@,
            },
            Outcome::TreeRejected { diagnostics, error } => OutcomeView::TreeRejected {
                diagnostics: diagnostics.deep_view(),
                error: *error,
            },
            Outcome::NoImage { report } => OutcomeView::NoImage { report: report@ },
            Outcome::ImageUnresolvable { report, error } => OutcomeView::ImageUnresolvable {
                report: report@,
                error: *error,
            },
            Outcome::ImageUnavailable => OutcomeView::ImageUnavailable,
            Outcome::ImageNotSaved => OutcomeView::ImageNotSaved,
            Outcome::ImageSaved => OutcomeView::ImageSaved,
            Outcome::OutOfTurn => OutcomeView::OutOfTurn,
        }
    }
}

impl View for Action {
    type V = ActionView;

    open spec fn view(&self) -> ActionView {
        match self {
            Action::FetchPage { url } => ActionView::FetchPage { url: url@ },
            Action::FetchImage { report, url } => ActionView::FetchImage {
                report: report@,
                url: url@,
            },
            Action::SaveImage { bytes } => ActionView::SaveImage { bytes: bytes@ },
            Action::Stop { outcome } => ActionView::Stop { outcome: outcome@ },
        }
    }
}

impl View for SourceState {
    type V = SourceStateView;

    open spec fn view(&self) -> SourceStateView {
        match self {
            SourceState::AwaitingPage { base } => SourceStateView::AwaitingPage { base: base@ },
            SourceState::AwaitingImage => SourceStateView::AwaitingImage,
            SourceState::AwaitingSave => SourceStateView::AwaitingSave,
            SourceState::Finished => SourceStateView::Finished,
        }
    }
}

impl View for SourceEvent {
    type V = SourceEventView;

    open spec fn view(&self) -> SourceEventView {
        match self {
            SourceEvent::PageFetched { body } => SourceEventView::PageFetched {
                body: body.deep_view(),
            },
            SourceEvent::ImageFetched { bytes } => SourceEventView::ImageFetched {
                bytes: match bytes {
                    Some(b) => Some(b@),
                    None => None,
                },
            },
            SourceEvent::ImageSaved { saved } => SourceEventView::ImageSaved { saved: *saved },
        }
    }
}

impl View for Step {
    type V = StepView;

    open spec fn view(&self) -> StepView {
        StepView { state: self.state@, action: self.action@ }
    }
}

/// The step that ends a course.
pub open spec fn stop(outcome: OutcomeView) -> StepView {
    StepView { state: SourceStateView::Finished, action: ActionView::Stop { outcome } }
}

/// The site root of a source, or why it has none.
pub open spec fn site_base_of(source_url: Seq<char>) -> Result<Seq<char>, UrlError> {
    match stable_parse(source_url) {
        None => Err(UrlError::Unparseable),
        Some(href) => match site_root_of(href) {
            None => Err(UrlError::NonSegmentableScheme),
            Some(base) => Ok(base),
        },
    }
}

/// The first step for a source, given what came of looking for its site
/// root: with a site root its page is to be fetched, without one its course
/// has ended.
pub open spec fn begin_spec(source_url: Seq<char>, base: Result<Seq<char>, UrlError>) -> StepView {
    match base {
        Ok(base) => StepView {
            state: SourceStateView::AwaitingPage { base },
            action: ActionView::FetchPage { url: source_url },
        },
        Err(error) => stop(OutcomeView::UrlRejected { error }),
    }
}

/// The first step for a source: its page is to be fetched, unless its
/// address is no URL or has no site root.
pub open spec fn start_spec(source_url: Seq<char>) -> StepView {
    begin_spec(source_url, site_base_of(source_url))
}

/// The URL of the image that a page names by `reference`, resolved against
/// `base`; `None` where the page names no image.
pub open spec fn image_url_of(base: Seq<char>, reference: Option<Seq<char>>) -> Option<
    Result<Seq<char>, UrlError>,
> {
    match reference {
        None => None,
        Some(reference) => match stable_join(base, reference) {
            Some(url) => Some(Ok(url)),
            None => Some(Err(UrlError::Unparseable)),
        },
    }
}

/// The step after a page was read, given its report and what came of
/// resolving the image it names: the image is to be fetched, unless the page
/// names none or names it by a reference that cannot be resolved.
pub open spec fn image_spec(
    report: PageReportView,
    resolved: Option<Result<Seq<char>, UrlError>>,
) -> StepView {
    match resolved {
        None => stop(OutcomeView::NoImage { report }),
        Some(Err(error)) => stop(OutcomeView::ImageUnresolvable { report, error }),
        Some(Ok(url)) => StepView {
            state: SourceStateView::AwaitingImage,
            action: ActionView::FetchImage { report, url },
        },
    }
}

/// The step after a page was parsed: that of its report and its image,
/// unless the document is not one tree.
pub open spec fn document_spec(base: Seq<char>, tree: DocumentTreeView) -> StepView {
    if tree.children.len() == 0 {
        stop(OutcomeView::TreeRejected { diagnostics: tree.diagnostics, error: TreeError::NoRoot })
    } else if tree.children.len() > 1 {
        stop(
            OutcomeView::TreeRejected {
                diagnostics: tree.diagnostics,
                error: TreeError::SeveralRoots,
            },
        )
    } else {
        image_spec(
            PageReportView { diagnostics: tree.diagnostics, features: features_of(tree) },
            image_url_of(base, features_of(tree).image_reference),
        )
    }
}

/// The step after a page was handed to the parser, given what the parser
/// made of it: that of the document, unless the parser gave up.
pub open spec fn parsed_spec(base: Seq<char>, parsed: Result<DocumentTreeView, Seq<char>>) -> StepView {
    match parsed {
        Ok(tree) => document_spec(base, tree),
        Err(message) => stop(OutcomeView::MarkupRejected { message }),
    }
}

/// The step ends the course because the parser gave up on the page.
pub open spec fn is_markup_rejection(step: StepView) -> bool {
    &&& step.state is Finished
    &&& step.action matches ActionView::Stop { outcome }
    &&& outcome is MarkupRejected
}

/// A step that may follow a page's text: that of the document which the
/// parser makes of the text, or the end of the course where the parser gives
/// up. Which of the two is for the parser to say.
pub open spec fn page_allows(base: Seq<char>, body: Seq<char>, step: StepView) -> bool {
    step == document_spec(base, markup_tree(body)) || is_markup_rejection(step)
}

/// A step that may follow an event in a state. But for a page's text, where
/// the parser has a say, there is exactly one.
pub open spec fn advance_allows(
    state: SourceStateView,
    event: SourceEventView,
    step: StepView,
) -> bool {
    match (state, event) {
        (
            SourceStateView::AwaitingPage { base },
            SourceEventView::PageFetched { body: Some(body) },
        ) => page_allows(base, body, step),
        (SourceStateView::AwaitingPage { .. }, SourceEventView::PageFetched { body: None }) => step
            == stop(OutcomeView::PageUnavailable),
        (SourceStateView::AwaitingImage, SourceEventView::ImageFetched { bytes: Some(bytes) }) => {
            step == StepView {
                state: SourceStateView::AwaitingSave,
                action: ActionView::SaveImage { bytes },
            }
        },
        (SourceStateView::AwaitingImage, SourceEventView::ImageFetched { bytes: None }) => step
            == stop(OutcomeView::ImageUnavailable),
        (SourceStateView::AwaitingSave, SourceEventView::ImageSaved { saved }) => step == stop(
            if saved {
                OutcomeView::ImageSaved
            } else {
                OutcomeView::ImageNotSaved
            },
        ),
        _ => step == stop(OutcomeView::OutOfTurn),
    }
}

/// The step that ends a course with `outcome`.
fn stop_with(outcome: Outcome) -> (r: Step)
    ensures
        r@ == stop(outcome@),
{
    Step { state: SourceState::Finished, action: Action::Stop { outcome } }
}

/// What came of looking for a site root, mathematically.
pub open spec fn site_base_view(base: Result<SiteBase, UrlError>) -> Result<Seq<char>, UrlError> {
    match base {
        Ok(base) => Ok(base@),
        Err(error) => Err(error),
    }
}

/// What came of resolving an image reference, mathematically.
pub open spec fn resolved_view(resolved: Option<Result<AbsoluteUrl, UrlError>>) -> Option<
    Result<Seq<char>, UrlError>,
> {
    match resolved {
        None => None,
        Some(Ok(url)) => Some(Ok(url@)),
        Some(Err(error)) => Some(Err(error)),
    }
}

/// Looks for the site root of a source.
pub fn site_base(source_url: &str) -> (r: Result<SiteBase, UrlError>)
    ensures
        site_base_view(r) == site_base_of(source_url@),
{
    match AbsoluteUrl::parse(source_url) {
        Ok(page_url) => derive_site_root(&page_url),
        Err(error) => Err(error),
    }
}

/// Decides the first step for a source from what came of looking for its
/// site root.
pub fn begin(source_url: &str, base: Result<SiteBase, UrlError>) -> (r: Step)
    ensures
        r@ == begin_spec(source_url@, site_base_view(base)),
{
    match base {
        Ok(base) => Step {
            state: SourceState::AwaitingPage { base },
            action: Action::FetchPage { url: source_url.to_owned() },
        },
        Err(error) => stop_with(Outcome::UrlRejected { error }),
    }
}

/// Begins the course of a source.
pub fn start(source_url: &str) -> (r: Step)
    ensures
        r@ == start_spec(source_url@),
{
    begin(source_url, site_base(source_url))
}

/// Decides what follows a page's report from what came of resolving the
/// image that the page names.
pub fn decide_image(report: PageReport, resolved: Option<Result<AbsoluteUrl, UrlError>>) -> (r:
    Step)
    ensures
        r@ == image_spec(report@, resolved_view(resolved)),
{
    match resolved {
        None => stop_with(Outcome::NoImage { report }),
        Some(Err(error)) => stop_with(Outcome::ImageUnresolvable { report, error }),
        Some(Ok(url)) => Step {
            state: SourceState::AwaitingImage,
            action: Action::FetchImage { report, url },
        },
    }
}

/// Decides what follows a parsed page.
pub fn examine_document(base: &SiteBase, tree: DocumentTree) -> (r: Step)
    ensures
        r@ == document_spec(base@, tree@),
{
    let extracted = extract_features(&tree);
    let DocumentTree { children: _, diagnostics } = tree;
    let features = match extracted {
        Ok(features) => features,
        Err(error) => {
            return stop_with(Outcome::TreeRejected { diagnostics, error });
        },
    };
    let resolved = match &features.image_reference {
        Some(reference) => Some(resolve(base, reference.as_str())),
        None => None,
    };
    decide_image(PageReport { diagnostics, features }, resolved)
}

/// What the parser made of a page, mathematically.
pub open spec fn parsed_view(parsed: Result<DocumentTree, ParseError>) -> Result<
    DocumentTreeView,
    Seq<char>,
> {
    match parsed {
        Ok(tree) => Ok(tree@),
        Err(error) => Err(error.message@),
    }
}

/// Decides what follows a page from what the parser made of it.
pub fn examine_parsed(base: &SiteBase, parsed: Result<DocumentTree, ParseError>) -> (r: Step)
    ensures
        r@ == parsed_spec(base@, parsed_view(parsed)),
{
    match parsed {
        Ok(tree) => examine_document(base, tree),
        Err(error) => stop_with(Outcome::MarkupRejected { error }),
    }
}

/// Decides what follows a page's text.
pub fn examine_page(base: &SiteBase, body: &str) -> (r: Step)
    ensures
        page_allows(base@, body@, r@),
{
    examine_parsed(base, parse_document(body))
}

/// Takes an event and decides what follows.
pub fn advance(state: SourceState, event: SourceEvent) -> (r: Step)
    ensures
        advance_allows(state@, event@, r@),
        state@ is Finished ==> r@.state is Finished,
        !(state@ is Finished) ==> steps_left(r@.state) < steps_left(state@),
        r@.action is Stop <==> r@.state is Finished,
{
    let step = match (state, event) {
        (SourceState::AwaitingPage { base }, SourceEvent::PageFetched { body: Some(body) }) => {
            examine_page(&base, body.as_str())
        },
        (SourceState::AwaitingPage { .. }, SourceEvent::PageFetched { body: None }) => stop_with(
            Outcome::PageUnavailable,
        ),
        (SourceState::AwaitingImage, SourceEvent::ImageFetched { bytes: Some(bytes) }) => Step {
            state: SourceState::AwaitingSave,
            action: Action::SaveImage { bytes },
        },
        (SourceState::AwaitingImage, SourceEvent::ImageFetched { bytes: None }) => stop_with(
            Outcome::ImageUnavailable,
        ),
        (SourceState::AwaitingSave, SourceEvent::ImageSaved { saved }) => if saved {
            stop_with(Outcome::ImageSaved)
        } else {
            stop_with(Outcome::ImageNotSaved)
        },
        _ => stop_with(Outcome::OutOfTurn),
    };
    proof {
        lemma_advance_progress(state@, event@, step@);
    }
    step
}

/// How many events a state can still take before the course has ended.
pub open spec fn steps_left(state: SourceStateView) -> nat {
    match state {
        SourceStateView::AwaitingPage { .. } => 3,
        SourceStateView::AwaitingImage => 2,
        SourceStateView::AwaitingSave => 1,
        SourceStateView::Finished => 0,
    }
}

/// Every event brings the end of the course nearer, the end is never left
/// again, and the machine says `Stop` exactly when the course has ended,
/// whatever the parser says to a page.
pub proof fn lemma_advance_progress(state: SourceStateView, event: SourceEventView, step: StepView)
    requires
        advance_allows(state, event, step),
    ensures
        state is Finished ==> step.state is Finished,
        !(state is Finished) ==> steps_left(step.state) < steps_left(state),
        step.action is Stop <==> step.state is Finished,
{
}

/// A course begins with the page to fetch, or it has ended at once.
pub proof fn lemma_start_progress(source_url: Seq<char>)
    ensures
        start_spec(source_url).action is Stop <==> start_spec(source_url).state is Finished,
        !(start_spec(source_url).action is Stop) ==> start_spec(source_url).action
            == (ActionView::FetchPage { url: source_url }),
{
}

} // verus!
