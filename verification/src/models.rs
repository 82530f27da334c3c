//! Response data models of the web-search API.
//!
//! Pure data: each struct mirrors one object shape of the provider's
//! response schema, with optional fields for everything the plan or the
//! query may leave out. The wire field `type` is spelled `kind` here.

use vstd::prelude::*;

verus! {

/// A reference for the summary.
#[derive(Debug, Clone)]
pub struct Summarizer {
    /// The value is always `summarizer`.
    pub kind: String,
    /// The key for the summarizer api.
    pub key: String,
}

/// A model representing information gathered around the requested query.
#[derive(Debug, Clone)]
pub struct Query {
    pub original: Option<String>,
    pub show_strict_warning: Option<bool>,
    pub altered: Option<String>,
    pub safesearch: Option<bool>,
    pub is_navigational: Option<bool>,
    pub is_geolocal: Option<bool>,
    pub local_decision: Option<String>,
    pub local_locations_idx: Option<i32>,
    pub is_trending: Option<bool>,
    pub is_news_breaking: Option<bool>,
    pub ask_for_location: Option<bool>,
    pub language: Option<Language>,
    pub spellcheck_off: Option<bool>,
    pub country: Option<String>,
    pub bad_results: Option<bool>,
    pub should_fallback: Option<bool>,
    pub lat: Option<String>,
    pub long: Option<String>,
    pub postal_code: Option<String>,
    pub city: Option<String>,
    pub state: Option<String>,
    pub header_country: Option<String>,
    pub more_results_available: Option<bool>,
    pub custom_location_label: Option<String>,
    pub reddit_cluster: Option<String>,
}

/// A discussion cluster relevant to the query.
#[derive(Debug, Clone)]
pub struct Discussions {
    pub kind: Option<String>,
    pub results: Option<Vec<DiscussionResult>>,
    pub mutated_by_goggles: Option<bool>,
}

/// A discussion result: a forum post relevant to the query.
#[derive(Debug, Clone)]
pub struct DiscussionResult {
    pub kind: Option<String>,
    pub data: Option<ForumData>,
}

/// A result from a discussion forum.
#[derive(Debug, Clone)]
pub struct ForumData {
    pub forum_name: Option<String>,
    pub num_answers: Option<i32>,
    pub score: Option<String>,
    pub title: Option<String>,
    pub question: Option<String>,
    pub top_comment: Option<String>,
}

/// Frequently asked questions relevant to the query.
#[derive(Debug, Clone)]
pub struct FAQ {
    pub kind: Option<String>,
    pub results: Option<Vec<QA>>,
}

/// A question answer result.
#[derive(Debug, Clone)]
pub struct QA {
    pub question: Option<String>,
    pub answer: Option<String>,
    pub title: Option<String>,
    pub url: Option<String>,
    pub meta_url: Option<MetaUrl>,
}

/// Aggregated information about a url.
#[derive(Debug, Clone)]
pub struct MetaUrl {
    pub scheme: Option<String>,
    pub netloc: Option<String>,
    pub hostname: Option<String>,
    pub favicon: Option<String>,
    pub path: Option<String>,
}

/// A web search result.
#[derive(Debug, Clone)]
pub struct ResultItem {
    pub title: Option<String>,
    pub url: Option<String>,
    pub is_source_local: Option<bool>,
    pub is_source_both: Option<bool>,
    pub description: Option<String>,
    pub page_age: Option<String>,
    pub page_fetched: Option<String>,
    pub profile: Option<Profile>,
    pub language: Option<String>,
    pub family_friendly: Option<bool>,
}

#[derive(Debug, Clone)]
pub struct GenericInfobox {
    pub subtype: Option<String>,
    pub found_in_urls: Option<Vec<String>>,
}

#[derive(Debug, Clone)]
pub struct QAInfobox {
    pub subtype: Option<String>,
    pub data: Option<QAPage>,
    pub meta_url: Option<MetaUrl>,
}

#[derive(Debug, Clone)]
pub struct InfoboxPlace {
    pub subtype: Option<String>,
}

/// Aggregated result from a question answer page.
#[derive(Debug, Clone)]
pub struct QAPage {
    pub question: Option<String>,
    pub answer: Option<Answer>,
}

/// An answer to a question on a forum.
#[derive(Debug, Clone)]
pub struct Answer {
    pub text: Option<String>,
    pub author: Option<String>,
    pub upvote_count: Option<i32>,
    pub downvote_count: Option<i32>,
}

/// A picture thumbnail.
#[derive(Debug, Clone)]
pub struct Thumbnail {
    pub src: Option<String>,
    pub height: Option<i32>,
    pub width: Option<i32>,
    pub bg_color: Option<String>,
    pub original: Option<String>,
    pub logo: Option<bool>,
    pub duplicated: Option<bool>,
    pub theme: Option<String>,
}

/// The ranking order of results on a search result page.
#[derive(Debug, Clone)]
pub struct MixedResponse {
    pub kind: Option<String>,
    pub main: Option<Vec<ResultReference>>,
    pub top: Option<Vec<ResultReference>>,
    pub side: Option<Vec<ResultReference>>,
}

/// Where a result of a given type should be placed.
#[derive(Debug, Clone)]
pub struct ResultReference {
    pub kind: Option<String>,
    pub index: Option<i32>,
    pub all: Option<bool>,
}

/// Video results.
#[derive(Debug, Clone)]
pub struct Videos {
    pub kind: Option<String>,
    pub results: Option<Vec<VideoResult>>,
    pub mutated_by_goggles: Option<bool>,
}

/// News results.
#[derive(Debug, Clone)]
pub struct News {
    pub kind: Option<String>,
    pub results: Option<Vec<NewsResult>>,
    pub mutated_by_goggles: Option<bool>,
}

/// A news result.
#[derive(Debug, Clone)]
pub struct NewsResult {
    pub meta_url: Option<MetaUrl>,
    pub source: Option<String>,
    pub breaking: Option<bool>,
    pub thumbnail: Option<Thumbnail>,
    pub age: Option<String>,
    pub extra_snippets: Option<Vec<String>>,
}

/// A list of pictures.
#[derive(Debug, Clone)]
pub struct PictureResults {
    pub view_more_url: Option<String>,
    pub results: Option<Vec<Thumbnail>>,
}

/// An action to be taken.
#[derive(Debug, Clone)]
pub struct Action {
    pub kind: Option<String>,
    pub url: Option<String>,
}

/// A postal address of a location.
#[derive(Debug, Clone)]
pub struct PostalAddress {
    pub kind: Option<String>,
    pub country: Option<String>,
    pub postal_code: Option<String>,
    pub street_address: Option<String>,
    pub address_region: Option<String>,
    pub address_locality: Option<String>,
    pub display_address: Option<String>,
}

/// Opening hours of a business at a particular location.
#[derive(Debug, Clone)]
pub struct OpeningHours {
    pub current_day: Option<Vec<DayOpeningHours>>,
    pub days: Option<Vec<Vec<DayOpeningHours>>>,
}

/// The opening hours of one day for a business at a particular location.
#[derive(Debug, Clone)]
pub struct DayOpeningHours {
    pub abbr_name: Option<String>,
    pub full_name: Option<String>,
    pub opens: Option<String>,
    pub closes: Option<String>,
}

/// Contact information for an entity.
#[derive(Debug, Clone)]
pub struct Contact {
    pub email: Option<String>,
    pub telephone: Option<String>,
}

/// The data provider associated with an entity.
#[derive(Debug, Clone)]
pub struct DataProvider {
    pub kind: Option<String>,
    pub name: Option<String>,
    pub url: Option<String>,
    pub long_name: Option<String>,
    pub img: Option<String>,
}

/// A profile of an entity.
#[derive(Debug, Clone)]
pub struct Profile {
    pub name: Option<String>,
    pub long_name: Option<String>,
    pub url: Option<String>,
    pub img: Option<String>,
}

/// A generic thing.
#[derive(Debug, Clone)]
pub struct Thing {
    pub kind: Option<String>,
    pub name: Option<String>,
    pub url: Option<String>,
    pub thumbnail: Option<Thumbnail>,
}

/// A person entity.
#[derive(Debug, Clone)]
pub struct Person {
    pub kind: Option<String>,
}

/// The price for an entity.
#[derive(Debug, Clone)]
pub struct Price {
    pub price: Option<String>,
    pub price_currency: Option<String>,
}

/// An article.
#[derive(Debug, Clone)]
pub struct Article {
    pub author: Option<Vec<Person>>,
    pub date: Option<String>,
    publisher: Option<Organization>,
    pub thumbnail: Option<Thumbnail>,
    pub is_accessible_for_free: Option<bool>,
}

/// A way to contact an entity.
#[derive(Debug, Clone)]
pub struct ContactPoint {
    pub kind: Option<String>,
    pub telephone: Option<String>,
    pub email: Option<String>,
}

/// An entity responsible for another entity.
#[derive(Debug, Clone)]
pub struct Organization {
    pub kind: Option<String>,
    pub contact_points: Option<Vec<ContactPoint>>,
}

/// Aggregated information on a how-to.
#[derive(Debug, Clone)]
pub struct HowTo {
    pub text: Option<String>,
    pub name: Option<String>,
    pub url: Option<String>,
    pub image: Option<Vec<String>>,
}

/// An offer associated with a product.
#[derive(Debug, Clone)]
pub struct Offer {
    pub url: Option<String>,
    pub price_currency: Option<String>,
    pub price: Option<String>,
}

/// A software product.
#[derive(Debug, Clone)]
pub struct Software {
    pub name: Option<String>,
    pub author: Option<String>,
    pub version: Option<String>,
    pub code_repository: Option<String>,
    pub homepage: Option<String>,
    pub date_published: Option<String>,
    pub is_npm: Option<bool>,
    pub is_pypi: Option<bool>,
    pub stars: Option<i32>,
    pub forks: Option<i32>,
    pub programming_language: Option<String>,
}

/// Aggregated deep results from news, social, videos and images.
#[derive(Debug, Clone)]
pub struct DeepResult {
    pub news: Option<Vec<NewsResult>>,
    pub buttons: Option<Vec<ButtonResult>>,
    pub social: Option<Vec<Profile>>,
    pub videos: Option<Vec<VideoResult>>,
    pub images: Option<Vec<Image>>,
}

/// A video result.
#[derive(Debug, Clone)]
pub struct VideoResult {
    pub kind: Option<String>,
    pub video: Option<VideoData>,
    pub meta_url: Option<MetaUrl>,
    pub thumbnail: Option<Thumbnail>,
    pub age: Option<String>,
}

/// Metadata gathered for a video.
#[derive(Debug, Clone)]
pub struct VideoData {
    pub duration: Option<String>,
    pub views: Option<String>,
    pub creator: Option<String>,
    publisher: Option<String>,
    pub thumbnail: Option<Thumbnail>,
}

/// A result which can be used as a button.
#[derive(Debug, Clone)]
pub struct ButtonResult {
    pub kind: Option<String>,
    pub title: Option<String>,
    pub url: Option<String>,
}

/// A knowledge graph entity.
#[derive(Debug, Clone)]
pub struct KnowledgeGraphEntity {
    pub title: Option<String>,
    pub description: Option<String>,
    pub url: Option<URL>,
    pub thumbnail: Option<URL>,
}

/// An entity profile from a knowledge graph.
#[derive(Debug, Clone)]
pub struct KnowledgeGraphProfile {
    pub url: Option<URL>,
    pub description: Option<String>,
}

/// A URL.
#[derive(Debug, Clone)]
pub struct URL {
    pub original: Option<String>,
    pub display: Option<String>,
    pub alternatives: Option<Vec<String>>,
    pub canonical: Option<String>,
    pub mobile: Option<MobileUrlItem>,
}

/// A mobile friendly representation of a URL.
#[derive(Debug, Clone)]
pub struct MobileUrlItem {
    pub original: Option<String>,
    pub amp: Option<String>,
    pub android: Option<String>,
    pub ios: Option<String>,
}

/// An image.
#[derive(Debug, Clone)]
pub struct Image {
    pub thumbnail: Option<Thumbnail>,
    pub url: Option<String>,
    pub properties: Option<ImageProperties>,
}

/// A language.
#[derive(Debug, Clone)]
pub struct Language {
    pub main: Option<String>,
}

/// Metadata on an image.
#[derive(Debug, Clone)]
pub struct ImageProperties {
    pub url: Option<String>,
    pub resized: Option<String>,
    pub height: Option<i32>,
    pub width: Option<i32>,
    pub format: Option<String>,
    pub content_size: Option<String>,
}

/// A result from the summarizer.
#[derive(Debug, Clone)]
pub struct SummarizerResult {
    pub kind: Option<String>,
    pub summary: Option<String>,
    pub answer: Option<SummarizerAnswer>,
    pub references: Option<Vec<ReferenceSource>>,
}

/// An answer from the summarized content.
#[derive(Debug, Clone)]
pub struct SummarizerAnswer {
    pub text: Option<String>,
    pub location: Option<TextLocation>,
}

/// Index-based location in a text.
#[derive(Debug, Clone)]
pub struct TextLocation {
    pub start: Option<u16>,
    pub end: Option<u16>,
}

/// A reference source for a summary.
#[derive(Debug, Clone)]
pub struct ReferenceSource {
    pub kind: Option<String>,
    pub name: Option<String>,
    pub url: Option<String>,
    pub img: Option<String>,
    pub locations: Option<Vec<TextLocation>>,
}

/// A summary element: plain text or an entity.
#[derive(Debug, Clone)]
pub enum StringOrSummaryEntity {
    Text(String),
    Entity(SummaryEntity),
}

/// An image in a summary.
#[derive(Debug, Clone)]
pub struct SummaryImage {
    pub text: Option<String>,
}

/// An entity in a summary.
#[derive(Debug, Clone)]
pub struct SummaryEntity {
    pub uuid: Option<String>,
    pub name: Option<String>,
    pub url: Option<String>,
    pub text: Option<String>,
    pub images: Vec<SummaryImage>,
    pub highlight: Vec<TextLocation>,
}

/// One element of a summary message.
#[derive(Debug, Clone)]
pub struct SummaryMessage {
    pub kind: String,
    pub data: StringOrSummaryEntity,
}

/// Details on an entity in a summary message.
#[derive(Debug, Clone)]
pub struct SummaryEntityInfo {
    pub provider: Option<String>,
    pub description: Option<String>,
}

/// A reference for the summary.
#[derive(Debug, Clone)]
pub struct SummaryContext {
    title: Option<String>,
    url: Option<String>,
    meta_url: MetaUrl,
}

} // verus!
