use vstd::prelude::*;

verus! {

/// The markdown extensions that documents are rendered with.
#[derive(Debug)]
pub struct MarkdownOptions {
    pub strikethrough: bool,
    pub tagfilter: bool,
    pub table: bool,
    pub autolink: bool,
    pub tasklist: bool,
    pub superscript: bool,
    /// Prefix of the ids given to headings; `None` gives them no ids.
    pub header_ids: Option<String>,
    pub footnotes: bool,
    pub description_lists: bool,
    /// The line that opens and closes front matter; `None` reads none.
    pub front_matter_delimiter: Option<String>,
}

pub struct MarkdownOptionsView {
    pub strikethrough: bool,
    pub tagfilter: bool,
    pub table: bool,
    pub autolink: bool,
    pub tasklist: bool,
    pub superscript: bool,
    pub header_ids: Option<Seq<char>>,
    pub footnotes: bool,
    pub description_lists: bool,
    pub front_matter_delimiter: Option<Seq<char>>,
}

pub open spec fn opt_view(s: Option<String>) -> Option<Seq<char>> {
    match s {
        Some(t) => Some(t@),
        None => None,
    }
}

impl View for MarkdownOptions {
    type V = MarkdownOptionsView;

    open spec fn view(&self) -> MarkdownOptionsView {
        MarkdownOptionsView {
            strikethrough: self.strikethrough,
            tagfilter: self.tagfilter,
            table: self.table,
            autolink: self.autolink,
            tasklist: self.tasklist,
            superscript: self.superscript,
            header_ids: opt_view(self.header_ids),
            footnotes: self.footnotes,
            description_lists: self.description_lists,
            front_matter_delimiter: opt_view(self.front_matter_delimiter),
        }
    }
}

/// GitHub-flavoured rendering: every extension on, headings given ids
/// without a prefix, front matter between `---` lines.
pub open spec fn gfm_options() -> MarkdownOptionsView {
    MarkdownOptionsView {
        strikethrough: true,
        tagfilter: true,
        table: true,
        autolink: true,
        tasklist: true,
        superscript: true,
        header_ids: Some(Seq::empty()),
        footnotes: true,
        description_lists: true,
        front_matter_delimiter: Some("---"@),
    }
}

/// The options of GitHub-flavoured rendering.
pub fn create_comrak_options() -> (r: MarkdownOptions)
    ensures
        r@ == gfm_options(),
{
    let r = MarkdownOptions {
        strikethrough: true,
        tagfilter: true,
        table: true,
        autolink: true,
        tasklist: true,
        superscript: true,
        header_ids: Some(String::new()),
        footnotes: true,
        description_lists: true,
        front_matter_delimiter: Some(String::from_str("---")),
    };
    assert(r@.header_ids->Some_0 =~= Seq::<char>::empty());
    r
}

} // verus!
