use crate::edit::{bytes_of, fits, range_fits, splice, spliced, DiffRange};
use crate::error::TSBridgeError;
use crate::highlight::{
    flatten, flattening_starts_with_root, highlight_of, is_tree, preorder, Highlight, SyntaxNode,
};
use crate::language::{
    kind_count, kind_count_of, kind_name, kind_name_of, language_error_message, parse_bytes,
    GrammarParser, TSLang,
};
use crate::tree::read_tree;
use tree_sitter::{InputEdit, Point, Tree};
use vstd::prelude::*;
use vstd::string::StringSliceAdditionalSpecFns;

verus! {

/// Relies on tree_sitter::Tree::edit: marks bytes `[start, old_end)` as
/// replaced by bytes `[start, new_end)`, with no row and column positions.
#[verifier::external_body]
fn edit_tree(tree: &mut Tree, start: usize, old_end: usize, new_end: usize) {
    tree.edit(
        &InputEdit {
            start_byte: start,
            old_end_byte: old_end,
            new_end_byte: new_end,
            start_position: Point::default(),
            old_end_position: Point::default(),
            new_end_position: Point::default(),
        },
    )
}

/// A list of highlights is the pre-order flattening of a tree.
pub open spec fn is_flattening(h: Seq<Highlight>) -> bool {
    exists|nodes: Seq<SyntaxNode>| is_tree(nodes) && h == #[trigger] preorder(nodes, 0)
}

/// The error for a call that needs a grammar when none is selected.
pub open spec fn no_language_error(e: TSBridgeError) -> bool {
    e matches TSBridgeError::LanguageError { error_message } && error_message@
        == "no language selected"@
}

/// A result with its highlight list seen as a sequence.
pub open spec fn results(r: Result<Vec<Highlight>, TSBridgeError>) -> Result<
    Seq<Highlight>,
    TSBridgeError,
> {
    match r {
        Ok(h) => Ok(h@),
        Err(e) => Err(e),
    }
}

/// What a parse call leaves behind once the text is in place: on success
/// the returned highlights are a flattening of the new tree, which is kept
/// with them; on failure a tree-creation error, with the highlights and the
/// tree of before.
pub open spec fn parse_kept(
    before: TSBridge,
    after: TSBridge,
    r: Result<Seq<Highlight>, TSBridgeError>,
) -> bool {
    match r {
        Ok(h) => h == after.highlights() && is_flattening(h) && after.has_tree(),
        Err(e) => e == TSBridgeError::TreeCreationError && after.highlights()
            == before.highlights() && after.has_tree() == before.has_tree(),
    }
}

/// The outcome of a full parse of `text`: without a grammar a language
/// error and no change; with one, the text replaced and the parse kept.
pub open spec fn full_parse_outcome(
    before: TSBridge,
    text: Seq<u8>,
    after: TSBridge,
    r: Result<Seq<Highlight>, TSBridgeError>,
) -> bool {
    if before.language() is None {
        (r matches Err(e) && no_language_error(e)) && after == before
    } else {
        &&& r is Ok
        &&& after.text() == text
        &&& after.language() == before.language()
        &&& parse_kept(before, after, r)
    }
}

/// The outcome of an edit that replaces the bytes that `range` names by
/// `replacement`: without a grammar a language error and no change; with a
/// range that does not fit the text an other error and no change; else the
/// text spliced and the parse kept.
pub open spec fn edit_outcome(
    before: TSBridge,
    replacement: Seq<u8>,
    range: DiffRange,
    after: TSBridge,
    r: Result<Seq<Highlight>, TSBridgeError>,
) -> bool {
    if before.language() is None {
        (r matches Err(e) && no_language_error(e)) && after == before
    } else if !range_fits(range, before.text().len() as int) {
        (r matches Err(e) && e matches TSBridgeError::OtherError { .. }) && after == before
    } else {
        &&& after.text() == spliced(
            before.text(),
            range.start as int,
            range.old_end as int,
            replacement,
        )
        &&& r is Ok
        &&& after.language() == before.language()
        &&& parse_kept(before, after, r)
    }
}

/// The outcome of selecting the grammar of `lang`: it is the selected one,
/// and the text, the highlights and the tree stay as they were.
pub open spec fn selection_outcome(
    before: TSBridge,
    lang: TSLang,
    after: TSBridge,
    r: Result<(), TSBridgeError>,
) -> bool {
    &&& r is Ok
    &&& after.language() == Some(lang)
    &&& after.text() == before.text()
    &&& after.highlights() == before.highlights()
    &&& after.has_tree() == before.has_tree()
}

/// The kind-table entry for a kind name: the name, or empty if there is none.
pub open spec fn entry_of(name: Option<Seq<char>>) -> Seq<char> {
    match name {
        Some(n) => n,
        None => Seq::empty(),
    }
}

/// The kind table of a tag's grammar: one entry per kind id below the
/// grammar's kind count, the kind's name or empty.
pub open spec fn is_kind_table(t: Seq<String>, tag: TSLang) -> bool {
    &&& t.len() == kind_count_of(tag)
    &&& forall|i: int| 0 <= i < t.len() ==> #[trigger] t[i]@ == entry_of(kind_name_of(tag, i as u16))
}

/// Whether asking a session for its kind table succeeds.
pub open spec fn kinds_available(s: TSBridge) -> bool {
    s.language() is Some
}

/// What reading the previous parse of a session gives.
pub open spec fn previous_parse(s: TSBridge) -> Seq<Highlight> {
    s.highlights()
}

/// An incremental parsing session: the selected grammar, the last tree, the
/// current source text as bytes, and the last highlights.
pub struct TSBridge {
    parser: GrammarParser,
    previous_tree: Option<Tree>,
    previous_string: Vec<u8>,
    previous_highlights: Vec<Highlight>,
}

impl TSBridge {
    /// The selected grammar's tag, if any.
    pub closed spec fn language(&self) -> Option<TSLang> {
        self.parser.installed_tag()
    }

    /// The current source text.
    pub closed spec fn text(&self) -> Seq<u8> {
        self.previous_string@
    }

    /// The highlights of the last successful parse.
    pub closed spec fn highlights(&self) -> Seq<Highlight> {
        self.previous_highlights@
    }

    /// Whether a tree from an earlier parse is kept.
    pub closed spec fn has_tree(&self) -> bool {
        self.previous_tree is Some
    }

    /// An empty session: no grammar, no tree, empty text, no highlights.
    pub fn new() -> (r: Self)
        ensures
            r.language() is None,
            r.text() == Seq::<u8>::empty(),
            r.highlights() == Seq::<Highlight>::empty(),
            !r.has_tree(),
    {
        TSBridge {
            parser: GrammarParser::new(),
            previous_tree: None,
            previous_string: Vec::new(),
            previous_highlights: Vec::new(),
        }
    }

    /// Selects the grammar of `lang`, replacing any earlier one. Text, tree
    /// and highlights are kept. Every grammar of the catalog is one that the
    /// parser accepts, so this succeeds for every tag.
    pub fn set_language(&mut self, lang: TSLang) -> (r: Result<(), TSBridgeError>)
        ensures
            selection_outcome(*old(self), lang, *final(self), r),
    {
        match self.parser.select(lang.grammar()) {
            Ok(()) => Ok(()),
            Err(e) => Err(TSBridgeError::LanguageError { error_message: language_error_message(&e) }),
        }
    }

    /// The node-kind names of the selected grammar, indexed by kind id; an
    /// id without a name gives an empty string. Fails with a language error
    /// exactly when no grammar is selected.
    pub fn get_kinds_for_selected_language(&self) -> (r: Result<Vec<String>, TSBridgeError>)
        ensures
            r is Ok <==> kinds_available(*self),
            r matches Err(e) ==> no_language_error(e),
            r matches Ok(t) ==> is_kind_table(t@, self.language()->0) && t@.len() >= 1,
    {
        let grammar = match self.parser.installed() {
            Some(grammar) => grammar,
            None => {
                return Err(no_language());
            },
        };
        let count = kind_count(grammar);
        let mut table: Vec<String> = Vec::new();
        let mut id: usize = 0;
        while id < count
            invariant
                id <= count,
                count == kind_count_of(grammar.tag()),
                table@.len() == id,
                forall|i: int|
                    0 <= i < id ==> #[trigger] table@[i]@ == entry_of(
                        kind_name_of(grammar.tag(), i as u16),
                    ),
            decreases count - id,
        {
            table.push(kind_entry(kind_name(grammar, id as u16)));
            id = id + 1;
        }
        Ok(table)
    }

    /// Replaces the source text, without parsing it.
    pub fn set_initial_string(&mut self, source_string: &str) -> (r: Result<(), TSBridgeError>)
        ensures
            r is Ok,
            final(self).text() == source_string.spec_bytes(),
            final(self).language() == old(self).language(),
            final(self).highlights() == old(self).highlights(),
            final(self).has_tree() == old(self).has_tree(),
    {
        self.previous_string = bytes_of(source_string.as_bytes());
        Ok(())
    }

    /// A copy of the current source text.
    pub fn current_text(&self) -> (r: Vec<u8>)
        ensures
            r@ == self.text(),
    {
        bytes_of(self.previous_string.as_slice())
    }

    /// The highlights of the last successful parse, without parsing again;
    /// empty before the first one.
    pub fn get_previous_parse(&self) -> (r: Result<Vec<Highlight>, TSBridgeError>)
        ensures
            r matches Ok(h) && h@ == previous_parse(*self),
    {
        Ok(copy_highlights(&self.previous_highlights))
    }

    /// Replaces the source text and parses it from scratch. On success the
    /// new tree and its highlights are kept and the highlights returned.
    /// Fails with a language error, changing nothing, when no grammar is
    /// selected; with a tree-creation error, the text already replaced, when
    /// the parser gives no tree.
    pub fn parse_everything(&mut self, source_string: &str) -> (r: Result<
        Vec<Highlight>,
        TSBridgeError,
    >)
        ensures
            full_parse_outcome(*old(self), source_string.spec_bytes(), *final(self), results(r)),
    {
        if self.parser.installed().is_none() {
            return Err(no_language());
        }
        self.previous_string = bytes_of(source_string.as_bytes());
        let tree = parse_bytes(&mut self.parser, &self.previous_string, None);
        self.keep_parse(tree)
    }

    /// Replaces bytes `[start, old_end)` of the source text by
    /// `changed_part`, tells the kept tree of the edit, and parses the new
    /// text reusing that tree. On success the new tree and its highlights are
    /// kept and the highlights returned. Fails with a language error when no
    /// grammar is selected, and with an other error when the range does not
    /// fit the text or `new_end` is negative, changing nothing in both
    /// cases; with a tree-creation error, the text already spliced, when the
    /// parser gives no tree.
    pub fn parse_changes(&mut self, changed_part: &str, diff_range: DiffRange) -> (r: Result<
        Vec<Highlight>,
        TSBridgeError,
    >)
        ensures
            edit_outcome(
                *old(self),
                changed_part.spec_bytes(),
                diff_range,
                *final(self),
                results(r),
            ),
    {
        if self.parser.installed().is_none() {
            return Err(no_language());
        }
        if !fits(diff_range, self.previous_string.len()) {
            return Err(
                TSBridgeError::OtherError {
                    error_message: "edit range outside the text".to_owned(),
                },
            );
        }
        let start = diff_range.start as usize;
        let old_end = diff_range.old_end as usize;
        let new_end = diff_range.new_end as usize;
        match &mut self.previous_tree {
            Some(tree) => edit_tree(tree, start, old_end, new_end),
            None => {},
        }
        self.previous_string = splice(
            &self.previous_string,
            start,
            old_end,
            changed_part.as_bytes(),
        );
        let tree = parse_bytes(&mut self.parser, &self.previous_string, self.previous_tree.as_ref());
        self.keep_parse(tree)
    }

    /// Keeps a new tree and its highlights, or reports that none came.
    fn keep_parse(&mut self, tree: Option<Tree>) -> (r: Result<Vec<Highlight>, TSBridgeError>)
        ensures
            final(self).text() == old(self).text(),
            final(self).language() == old(self).language(),
            r is Ok <==> tree is Some,
            parse_kept(*old(self), *final(self), results(r)),
    {
        let tree = match tree {
            Some(tree) => tree,
            None => {
                return Err(TSBridgeError::TreeCreationError);
            },
        };
        let nodes = read_tree(&tree);
        let highlights = flatten(&nodes);
        assert(is_flattening(highlights@)) by {
            assert(preorder(nodes@, 0) == highlights@);
        }
        self.previous_highlights = copy_highlights(&highlights);
        self.previous_tree = Some(tree);
        Ok(highlights)
    }
}

/// A list of highlights that a parse returns is never empty, and opens with
/// the highlight of the tree's root.
pub proof fn parse_result_starts_with_root(h: Seq<Highlight>)
    requires
        is_flattening(h),
    ensures
        h.len() >= 1,
        exists|nodes: Seq<SyntaxNode>| is_tree(nodes) && h[0] == highlight_of(#[trigger] nodes[0]),
{
    let nodes = choose|nodes: Seq<SyntaxNode>| is_tree(nodes) && h == #[trigger] preorder(nodes, 0);
    flattening_starts_with_root(nodes);
}

/// Once a grammar has been selected, asking for the kind table succeeds,
/// and gives the table of that grammar, the last one selected.
pub proof fn kinds_after_selection(
    before: TSBridge,
    lang: TSLang,
    after: TSBridge,
)
    requires
        selection_outcome(before, lang, after, Ok(())),
    ensures
        kinds_available(after),
        after.language()->0 == lang,
{
}

/// Two kind tables of one grammar hold the same names.
pub proof fn kind_tables_agree(t1: Seq<String>, t2: Seq<String>, tag: TSLang)
    requires
        is_kind_table(t1, tag),
        is_kind_table(t2, tag),
    ensures
        t1.len() == t2.len(),
        forall|i: int| 0 <= i < t1.len() ==> #[trigger] t1[i]@ == t2[i]@,
{
    assert forall|i: int| 0 <= i < t1.len() implies #[trigger] t1[i]@ == t2[i]@ by {
        assert(t1[i]@ == entry_of(kind_name_of(tag, i as u16)));
        assert(t2[i]@ == entry_of(kind_name_of(tag, i as u16)));
    }
}

/// Reading the previous parse right after a successful full parse gives
/// back the highlights that the parse returned.
pub proof fn previous_parse_after_full_parse(
    before: TSBridge,
    text: Seq<u8>,
    after: TSBridge,
    h: Seq<Highlight>,
)
    requires
        full_parse_outcome(before, text, after, Ok(h)),
    ensures
        previous_parse(after) == h,
{
}

/// An empty replacement of the empty range at the start, on a session with a
/// grammar, leaves the text as it was: the parse that follows reads the same
/// text that a full parse of it would read.
pub proof fn empty_edit_keeps_text(
    before: TSBridge,
    after: TSBridge,
    r: Result<Seq<Highlight>, TSBridgeError>,
)
    requires
        before.language() is Some,
        edit_outcome(
            before,
            Seq::empty(),
            DiffRange { start: 0, old_end: 0, new_end: 0 },
            after,
            r,
        ),
    ensures
        after.text() == before.text(),
        after.language() == before.language(),
{
    assert(spliced(before.text(), 0, 0, Seq::empty()) =~= before.text());
}

/// Before a grammar is selected, every call that needs one fails with a
/// language error and leaves the session as it was.
pub proof fn no_grammar_means_language_error(
    before: TSBridge,
    text: Seq<u8>,
    replacement: Seq<u8>,
    range: DiffRange,
    after: TSBridge,
    r: Result<Seq<Highlight>, TSBridgeError>,
)
    requires
        before.language() is None,
        full_parse_outcome(before, text, after, r) || edit_outcome(
            before,
            replacement,
            range,
            after,
            r,
        ),
    ensures
        r matches Err(e) && no_language_error(e),
        after == before,
{
}

/// The error for a call that needs a grammar when none is selected.
fn no_language() -> (r: TSBridgeError)
    ensures
        no_language_error(r),
{
    TSBridgeError::LanguageError { error_message: "no language selected".to_owned() }
}

/// The kind-table entry for a kind name: the name, or empty if there is none.
pub fn kind_entry(name: Option<&str>) -> (r: String)
    ensures
        r@ == entry_of(
            match name {
                Some(n) => Some(n@),
                None => None,
            },
        ),
{
    match name {
        Some(n) => n.to_owned(),
        None => String::new(),
    }
}

/// A copy of a list of highlights.
pub fn copy_highlights(h: &Vec<Highlight>) -> (r: Vec<Highlight>)
    ensures
        r@ == h@,
{
    let mut r: Vec<Highlight> = Vec::new();
    let mut i: usize = 0;
    while i < h.len()
        invariant
            i <= h@.len(),
            r@ == h@.subrange(0, i as int),
        decreases h@.len() - i,
    {
        r.push(h[i]);
        i = i + 1;
        assert(r@ =~= h@.subrange(0, i as int));
    }
    assert(r@ =~= h@);
    r
}

} // verus!
