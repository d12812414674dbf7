use crate::geometry::Point;
use crate::normalize::byte_len;
use crate::syntax::edit_tree;
use vstd::prelude::*;

verus! {

#[verifier::external_type_specification]
#[verifier::external_body]
pub struct ExFullTextDocument(lsp_textdocument::FullTextDocument);

/// A position as an editor reports it: a zero-based line and character.
#[derive(Clone, Copy, Debug, PartialEq, Eq, Structural)]
pub struct Position {
    pub line: u32,
    pub character: u32,
}

/// The span of text that a change replaces.
#[derive(Clone, Copy, Debug, PartialEq, Eq, Structural)]
pub struct TextRange {
    pub start: Position,
    pub end: Position,
}

/// One change to a document: the replaced range, if the editor sent one, and
/// the text that replaces it.
pub struct ContentChange {
    pub range: Option<TextRange>,
    pub text: String,
}

/// A change as the syntax tree takes it: byte offsets and points of where it
/// starts, where the replaced text ended, and where the new text ends.
#[derive(Clone, Copy, Debug, PartialEq, Eq, Structural)]
pub struct EditDescriptor {
    pub start_byte: usize,
    pub old_end_byte: usize,
    pub new_end_byte: usize,
    pub start_point: Point,
    pub old_end_point: Point,
    pub new_end_point: Point,
}

/// Why a change could not be turned into a tree edit.
#[derive(Clone, Copy, Debug, PartialEq, Eq, Structural)]
pub enum EditError {
    /// The change carries no range: the whole document was sent.
    InvalidRange,
    /// The end of the new text lies beyond the offsets a document can have.
    TooLarge,
}

/// The point of an editor position.
pub open spec fn point_of(p: Position) -> Point {
    Point { row: p.line as usize, column: p.character as usize }
}

/// The byte offset that a document gives each position (line, character).
pub uninterp spec fn offsets_of(d: lsp_textdocument::FullTextDocument) -> Map<(u32, u32), u32>;

/// The position (line, character) that a document gives each byte offset.
pub uninterp spec fn positions_of(d: lsp_textdocument::FullTextDocument) -> Map<u32, (u32, u32)>;

/// The offset of a position in a document.
pub open spec fn offset_in(d: lsp_textdocument::FullTextDocument, p: Position) -> u32 {
    offsets_of(d)[(p.line, p.character)]
}

/// The point of the position that a document gives a byte offset.
pub open spec fn point_at(d: lsp_textdocument::FullTextDocument, offset: u32) -> Point {
    Point { row: positions_of(d)[offset].0 as usize, column: positions_of(d)[offset].1 as usize }
}

/// Relies on `lsp_textdocument::FullTextDocument::offset_at`: the byte offset
/// of a position in the document, which depends on the document alone.
#[verifier::external_body]
fn offset_at(doc: &lsp_textdocument::FullTextDocument, p: Position) -> (r: u32)
    ensures
        r == offsets_of(*doc)[(p.line, p.character)],
{
    doc.offset_at(lsp_types::Position::new(p.line, p.character))
}

/// Relies on `lsp_textdocument::FullTextDocument::position_at`: the position
/// of a byte offset in the document, which depends on the document alone.
#[verifier::external_body]
fn position_at(doc: &lsp_textdocument::FullTextDocument, offset: u32) -> (r: Position)
    ensures
        (r.line, r.character) == positions_of(*doc)[offset],
{
    let p = doc.position_at(offset);
    Position { line: p.line, character: p.character }
}

/// Turns a change of `doc` into a tree edit: the start and old end are the
/// offsets of the range's ends, the new end lies the new text's length in
/// bytes after the start, at the position of that offset. A change without a
/// range fails with `EditError::InvalidRange`; a new end beyond `u32::MAX`
/// fails with `EditError::TooLarge`.
pub fn text_doc_change_to_tree_sitter_edit(
    change: &ContentChange,
    doc: &lsp_textdocument::FullTextDocument,
) -> (r: Result<EditDescriptor, EditError>)
    ensures
        (r == Err::<EditDescriptor, EditError>(EditError::InvalidRange)) <==> change.range is None,
        (r == Err::<EditDescriptor, EditError>(EditError::TooLarge)) <==> (change.range is Some
            && offset_in(*doc, change.range->0.start) + byte_len(change.text@) > u32::MAX),
        r matches Ok(e) ==> {
            &&& e.start_byte == offset_in(*doc, change.range->0.start)
            &&& e.old_end_byte == offset_in(*doc, change.range->0.end)
            &&& e.new_end_byte == e.start_byte + byte_len(change.text@)
            &&& e.new_end_byte <= u32::MAX
            &&& e.start_point == point_of(change.range->0.start)
            &&& e.old_end_point == point_of(change.range->0.end)
            &&& e.new_end_point == point_at(*doc, e.new_end_byte as u32)
        },
{
    let range = match change.range {
        Some(range) => range,
        None => {
            return Err(EditError::InvalidRange);
        },
    };
    let start = range.start;
    let end = range.end;
    let start_byte = offset_at(doc, start) as usize;
    let old_end_byte = offset_at(doc, end) as usize;
    let text_len = change.text.as_str().len();
    if text_len > u32::MAX as usize - start_byte {
        return Err(EditError::TooLarge);
    }
    let new_end_byte = start_byte + text_len;
    let new_end_pos = position_at(doc, new_end_byte as u32);
    Ok(EditDescriptor {
        start_byte,
        old_end_byte,
        new_end_byte,
        start_point: Point { row: start.line as usize, column: start.character as usize },
        old_end_point: Point { row: end.line as usize, column: end.character as usize },
        new_end_point: Point {
            row: new_end_pos.line as usize,
            column: new_end_pos.character as usize,
        },
    })
}

/// How many changes carry no range.
pub open spec fn missing_ranges(cs: Seq<ContentChange>) -> nat
    decreases cs.len(),
{
    if cs.len() == 0 {
        0
    } else {
        missing_ranges(cs.drop_last()) + if cs.last().range is None {
            1nat
        } else {
            0nat
        }
    }
}

/// How many of the errors are `EditError::InvalidRange`.
pub open spec fn invalid_ranges(es: Seq<EditError>) -> nat
    decreases es.len(),
{
    if es.len() == 0 {
        0
    } else {
        invalid_ranges(es.drop_last()) + if es.last() == EditError::InvalidRange {
            1nat
        } else {
            0nat
        }
    }
}

/// Applies each change of an already updated document to the syntax tree, in
/// order, and returns the errors of the changes that could not be applied,
/// each change's error in turn. The tree stays stale for those changes until
/// the next parse. Without a tree there is nothing to edit and no error.
pub fn apply_changes(
    tree: &mut Option<tree_sitter::Tree>,
    doc: &lsp_textdocument::FullTextDocument,
    changes: &Vec<ContentChange>,
) -> (r: Vec<EditError>)
    ensures
        (*final(tree) is Some) == (*old(tree) is Some),
        *old(tree) is None ==> r@.len() == 0,
        *old(tree) is Some ==> invalid_ranges(r@) == missing_ranges(changes@),
        r@.len() <= changes@.len(),
{
    let mut errors: Vec<EditError> = Vec::new();
    let t = match tree {
        Some(t) => t,
        None => {
            return errors;
        },
    };
    let mut i: usize = 0;
    while i < changes.len()
        invariant
            i <= changes@.len(),
            errors@.len() <= i,
            invalid_ranges(errors@) == missing_ranges(changes@.take(i as int)),
        decreases changes@.len() - i,
    {
        assert(changes@.take(i + 1).drop_last() =~= changes@.take(i as int));
        let ghost before = errors@;
        match text_doc_change_to_tree_sitter_edit(&changes[i], doc) {
            Ok(e) => edit_tree(t, &e),
            Err(err) => {
                errors.push(err);
                assert(errors@.drop_last() =~= before);
            },
        }
        i = i + 1;
    }
    assert(changes@.take(i as int) =~= changes@);
    errors
}

} // verus!
