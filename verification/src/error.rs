use vstd::prelude::*;

verus! {

/// What can go wrong while a listing is scraped.
#[derive(Clone, Copy, Debug, PartialEq, Eq, Structural)]
pub enum ScrapeError {
    /// The title or the link of a listing entry could not be resolved, so
    /// the entry cannot be identified. Fatal for the page it stands on.
    IdentityResolution,
    /// The rating or the comment count of a listing entry could not be
    /// resolved or read. The record is kept and the field takes its default.
    OptionalField,
    /// The page could not be brought to rest, or it lacks the pagination
    /// control that every listing page has.
    PageStructure,
    /// The session could not be brought to the page.
    Navigation,
    /// The sink refused a record or could not be flushed.
    SinkWrite,
}

} // verus!
