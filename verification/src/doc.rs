//! The static help document, as the viewer shows it. Reading the file is the
//! process edge's work; the factory here builds the reader from the content
//! it was handed.

use vstd::prelude::*;

verus! {

/// The text of one document, as the help viewer holds it.
#[derive(Clone, Debug)]
pub struct DocView {
    pub content: String,
}

impl DocView {
    pub fn from_string(content: String) -> (r: Self)
        ensures
            r.content == content,
    {
        DocView { content }
    }
}

/// The handler the viewer is driven by: it owns the document it shows.
#[derive(Clone, Debug)]
pub struct DocReaderHandler {
    pub doc_view: DocView,
}

impl DocReaderHandler {
    pub fn init(doc_view: DocView) -> (r: Self)
        ensures
            r.doc_view == doc_view,
    {
        DocReaderHandler { doc_view }
    }
}

pub struct DocsFactory;

impl DocsFactory {
    /// Builds the help reader from the help file's content, exactly as read.
    pub fn help_reader(content: String) -> (r: DocReaderHandler)
        ensures
            r.doc_view.content == content,
    {
        DocReaderHandler::init(DocView::from_string(content))
    }
}

} // verus!
