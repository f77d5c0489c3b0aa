//! Names of filesystem objects: text cut into components at every `/`.

use vstd::prelude::*;
use vstd::string::StringSliceAdditionalSpecFns;
use vstd::utf8::*;

use crate::sys::kstr::KStrCPtr;

verus! {

/// The pieces a text falls into when it is cut at every `/`. There is
/// always at least one piece, and a piece is empty where two cuts meet or
/// the text begins or ends with a cut.
pub open spec fn pieces(text: Seq<char>) -> Seq<Seq<char>>
    decreases text.len(),
{
    if text.len() == 0 {
        seq![Seq::empty()]
    } else {
        let rest = pieces(text.drop_first());
        if text[0] == '/' {
            seq![Seq::empty()] + rest
        } else {
            rest.update(0, seq![text[0]] + rest[0])
        }
    }
}

/// A text without `/` is a single piece: itself.
pub proof fn pieces_of_plain_text(text: Seq<char>)
    requires
        !text.contains('/'),
    ensures
        pieces(text) == seq![text],
    decreases text.len(),
{
    if text.len() != 0 {
        let rest = text.drop_first();
        assert forall|c: char| rest.contains(c) implies text.contains(c) by {
            let i = choose|i: int| 0 <= i < rest.len() && rest[i] == c;
            assert(text[i + 1] == c);
        }
        assert(text[0] != '/');
        pieces_of_plain_text(rest);
        assert(seq![text[0]] + rest =~= text);
        assert(pieces(text) =~= seq![text]);
    } else {
        assert(text =~= Seq::empty());
    }
}

/// Every text has at least one piece.
pub proof fn pieces_are_never_none(text: Seq<char>)
    ensures
        pieces(text).len() >= 1,
    decreases text.len(),
{
    if text.len() != 0 {
        pieces_are_never_none(text.drop_first());
    }
}

/// Cutting two texts joined by a `/` gives the pieces of the first, then
/// those of the second.
pub proof fn pieces_of_joined_texts(head: Seq<char>, tail: Seq<char>)
    ensures
        pieces(head + seq!['/'] + tail) == pieces(head) + pieces(tail),
    decreases head.len(),
{
    let joined = head + seq!['/'] + tail;
    if head.len() == 0 {
        assert(joined.drop_first() =~= tail);
        assert(pieces(head) =~= seq![Seq::<char>::empty()]);
    } else {
        let rest = head.drop_first();
        pieces_of_joined_texts(rest, tail);
        pieces_are_never_none(rest);
        assert(joined.drop_first() =~= rest + seq!['/'] + tail);
        assert(joined[0] == head[0]);
        if head[0] == '/' {
            assert(pieces(joined) =~= pieces(head) + pieces(tail));
        } else {
            assert(pieces(joined) =~= pieces(head) + pieces(tail));
        }
    }
}

/// The text that pieces spell when a `/` is put between each two of them.
pub open spec fn joined(pieces: Seq<Seq<char>>) -> Seq<char>
    decreases pieces.len(),
{
    if pieces.len() == 0 {
        Seq::empty()
    } else if pieces.len() == 1 {
        pieces[0]
    } else {
        pieces[0] + seq!['/'] + joined(pieces.drop_first())
    }
}

/// Cutting loses nothing: the pieces of a text, joined again, are the
/// text.
pub proof fn pieces_join_back(text: Seq<char>)
    ensures
        joined(pieces(text)) == text,
    decreases text.len(),
{
    if text.len() == 0 {
        assert(text =~= Seq::empty());
    } else {
        let tail = text.drop_first();
        let rest = pieces(tail);
        pieces_join_back(tail);
        pieces_are_never_none(tail);
        let all = pieces(text);
        if text[0] == '/' {
            assert(all.drop_first() =~= rest);
            assert(joined(all) =~= seq!['/'] + tail);
        } else if rest.len() == 1 {
            assert(joined(all) =~= seq![text[0]] + tail);
        } else {
            assert(all.drop_first() =~= rest.drop_first());
            assert(joined(all) =~= seq![text[0]] + tail);
        }
        assert(seq![text[0]] + tail =~= text);
    }
}

/// Cutting leaves no `/` behind: no piece of a text holds one.
pub proof fn pieces_hold_no_slash(text: Seq<char>)
    ensures
        forall|i: int| 0 <= i < pieces(text).len() ==> !(#[trigger] pieces(text)[i]).contains('/'),
    decreases text.len(),
{
    if text.len() != 0 {
        let rest = pieces(text.drop_first());
        pieces_hold_no_slash(text.drop_first());
        pieces_are_never_none(text.drop_first());
        if text[0] != '/' {
            let first = seq![text[0]] + rest[0];
            assert forall|k: int| 0 <= k < first.len() implies first[k] != '/' by {
                if k > 0 {
                    assert(rest[0][k - 1] == first[k]);
                    assert(!rest[0].contains('/'));
                }
            }
        }
        assert forall|i: int| 0 <= i < pieces(text).len() implies !(#[trigger] pieces(
            text,
        )[i]).contains('/') by {
            if text[0] == '/' {
                if i > 0 {
                    assert(pieces(text)[i] == rest[i - 1]);
                }
            } else if i > 0 {
                assert(pieces(text)[i] == rest[i]);
            }
        }
    }
}

/// What a component of a path is, as mathematics.
pub enum ComponentView {
    /// An ordinary name, which may be empty.
    RealPath(Seq<char>),
    /// The root: the empty piece in front of a leading `/`.
    Root,
    /// `.`
    CurDir,
    /// `..`
    ParentDir,
}

/// What a piece stands for anywhere but in front of a leading `/`.
pub open spec fn classify(piece: Seq<char>) -> ComponentView {
    if piece == seq!['.'] {
        ComponentView::CurDir
    } else if piece == seq!['.', '.'] {
        ComponentView::ParentDir
    } else {
        ComponentView::RealPath(piece)
    }
}

/// The components that a run of pieces stands for. When `rooted`, the first
/// piece is the one in front of a leading `/` and stands for the root.
pub open spec fn label(pieces: Seq<Seq<char>>, rooted: bool) -> Seq<ComponentView> {
    Seq::new(
        pieces.len(),
        |i: int|
            if i == 0 && rooted {
                ComponentView::Root
            } else {
                classify(pieces[i])
            },
    )
}

/// Whether a text begins with `/`.
pub open spec fn is_rooted(text: Seq<char>) -> bool {
    text.len() > 0 && text[0] == '/'
}

/// The components of a path: one for each of its pieces, in order.
pub open spec fn components_of(text: Seq<char>) -> Seq<ComponentView> {
    label(pieces(text), is_rooted(text))
}

/// The file name of a path: its last piece, unless the path is one piece
/// only, in which case it has none.
pub open spec fn file_name_of(text: Seq<char>) -> Option<Seq<char>> {
    if pieces(text).len() > 1 {
        Some(pieces(text).last())
    } else {
        None
    }
}

/// The byte that spells `/` in UTF-8.
const SLASH: u8 = 0x2f;

/// A text that holds a `/` holds the byte of `/` in its UTF-8 spelling.
proof fn slash_shows_in_the_bytes(text: Seq<char>)
    requires
        text.contains('/'),
    ensures
        encode_utf8(text).contains(SLASH),
    decreases text.len(),
{
    let first = encode_scalar(text[0] as u32);
    let rest = text.drop_first();
    if text[0] == '/' {
        assert((0x2fu32 & 0x7f) as u8 == 0x2fu8) by (bit_vector);
        assert(encode_utf8(text)[0] == SLASH);
    } else {
        let i = choose|i: int| 0 <= i < text.len() && text[i] == '/';
        assert(rest[i - 1] == '/');
        slash_shows_in_the_bytes(rest);
        let k = choose|k: int| 0 <= k < encode_utf8(rest).len() && encode_utf8(rest)[k] == SLASH;
        assert(encode_utf8(text)[first.len() + k] == SLASH);
    }
}

/// Cuts `text` at the `/` that its byte `at` spells: what stands before
/// it, and what stands after it.
fn cut_at<'a>(text: &'a str, at: usize) -> (halves: (&'a str, &'a str))
    requires
        at < text.spec_bytes().len(),
        text.spec_bytes()[at as int] == SLASH,
    ensures
        text@ == halves.0@ + seq!['/'] + halves.1@,
        halves.0.spec_bytes() == text.spec_bytes().subrange(0, at as int),
        halves.1.spec_bytes() == text.spec_bytes().subrange(
            at + 1,
            text.spec_bytes().len() as int,
        ),
{
    broadcast use {encode_utf8_valid_utf8, encode_utf8_decode_utf8};

    let ghost bytes = text.spec_bytes();
    proof {
        is_char_boundary_iff_not_is_continuation_byte(bytes, at as int);
    }
    let (head, rest) = text.split_at(at);
    let ghost after = rest.spec_bytes();
    proof {
        assert(after[0] == bytes[at as int]);
        reveal_with_fuel(is_char_boundary, 2);
        assert(is_char_boundary(after, 1));
    }
    let (_, tail) = rest.split_at(1);
    proof {
        decode_utf8_split(bytes, at as int);
        assert(tail.spec_bytes() =~= pop_first_scalar(after));
        assert((0x2fu8 & 0x7f) as u32 == 0x2fu32) by (bit_vector);
        char_u32_cast('/', decode_first_scalar(after));
        assert(decode_utf8(after) == rest@);
        assert(decode_utf8(tail.spec_bytes()) == tail@);
        assert(rest@ =~= seq!['/'] + tail@);
        assert(tail.spec_bytes() =~= bytes.subrange(at + 1, bytes.len() as int));
        assert(text@ =~= head@ + seq!['/'] + tail@);
    }
    (head, tail)
}

/// Cuts `text` at its first `/`. The answer is `None` exactly when `text`
/// holds no `/`; otherwise it is the text before the first `/` and the text
/// after it.
fn split_once<'a>(text: &'a str) -> (halves: Option<(&'a str, &'a str)>)
    ensures
        halves is None <==> !text@.contains('/'),
        halves matches Some((head, tail)) ==> text@ == head@ + seq!['/'] + tail@
            && !head@.contains('/'),
{
    let bytes = text.as_bytes();
    let mut at: usize = 0;
    while at < bytes.len()
        invariant
            at <= bytes@.len(),
            bytes@ == text.spec_bytes(),
            forall|j: int| 0 <= j < at ==> bytes@[j] != SLASH,
        decreases bytes@.len() - at,
    {
        if bytes[at] == SLASH {
            let (head, tail) = cut_at(text, at);
            proof {
                if head@.contains('/') {
                    slash_shows_in_the_bytes(head@);
                }
                assert((head@ + seq!['/'] + tail@)[head@.len() as int] == '/');
            }
            return Some((head, tail));
        }
        at += 1;
    }
    proof {
        if text@.contains('/') {
            slash_shows_in_the_bytes(text@);
        }
    }
    None
}

/// Cuts `text` at its last `/`. The answer is `None` exactly when `text`
/// holds no `/`; otherwise it is the text before the last `/` and the text
/// after it.
fn rsplit_once<'a>(text: &'a str) -> (halves: Option<(&'a str, &'a str)>)
    ensures
        halves is None <==> !text@.contains('/'),
        halves matches Some((head, tail)) ==> text@ == head@ + seq!['/'] + tail@
            && !tail@.contains('/'),
{
    let bytes = text.as_bytes();
    let mut after: usize = bytes.len();
    while after > 0
        invariant
            after <= bytes@.len(),
            bytes@ == text.spec_bytes(),
            forall|j: int| after <= j < bytes@.len() ==> bytes@[j] != SLASH,
        decreases after,
    {
        if bytes[after - 1] == SLASH {
            let (head, tail) = cut_at(text, after - 1);
            proof {
                if tail@.contains('/') {
                    slash_shows_in_the_bytes(tail@);
                    let k = choose|k: int|
                        0 <= k < tail.spec_bytes().len() && tail.spec_bytes()[k] == SLASH;
                    assert(bytes@[after + k] == SLASH);
                }
                assert((head@ + seq!['/'] + tail@)[head@.len() as int] == '/');
            }
            return Some((head, tail));
        }
        after -= 1;
    }
    proof {
        if text@.contains('/') {
            slash_shows_in_the_bytes(text@);
        }
    }
    None
}

/// Whether `piece` is the text `.`.
fn is_cur_dir(piece: &str) -> (yes: bool)
    ensures
        yes == (piece@ == seq!['.']),
{
    let yes = piece.unicode_len() == 1 && piece.get_char(0) == '.';
    proof {
        if yes {
            assert(piece@ =~= seq!['.']);
        }
    }
    yes
}

/// Whether `piece` is the text `..`.
fn is_parent_dir(piece: &str) -> (yes: bool)
    ensures
        yes == (piece@ == seq!['.', '.']),
{
    let yes = piece.unicode_len() == 2 && piece.get_char(0) == '.' && piece.get_char(1) == '.';
    proof {
        if yes {
            assert(piece@ =~= seq!['.', '.']);
        }
    }
    yes
}

/// A path: a text that names a filesystem object, borrowed.
#[derive(Clone, Copy, Debug, PartialEq, Eq, PartialOrd, Ord, Hash)]
pub struct Path<'a> {
    text: &'a str,
}

impl<'a> View for Path<'a> {
    type V = Seq<char>;

    closed spec fn view(&self) -> Seq<char> {
        self.text@
    }
}

/// One component of a path.
#[derive(Clone, Copy, Debug, PartialEq, Eq)]
pub enum Component<'a> {
    RealPath(Path<'a>),
    Root,
    CurDir,
    ParentDir,
}

impl<'a> View for Component<'a> {
    type V = ComponentView;

    open spec fn view(&self) -> ComponentView {
        match *self {
            Component::RealPath(path) => ComponentView::RealPath(path@),
            Component::Root => ComponentView::Root,
            Component::CurDir => ComponentView::CurDir,
            Component::ParentDir => ComponentView::ParentDir,
        }
    }
}

/// The components of a path that are still to come, handed out one by one
/// by `next`.
#[derive(Debug)]
pub struct Components<'a> {
    next_is_root: bool,
    rest: Option<&'a str>,
}

impl<'a> Components<'a> {
    /// The components still to come, in order.
    pub closed spec fn remaining(self) -> Seq<ComponentView> {
        match self.rest {
            Some(rest) => label(pieces(rest@), self.next_is_root),
            None => Seq::empty(),
        }
    }

    /// Hands out the next component, or `None` when all have been handed
    /// out.
    pub fn next(&mut self) -> (item: Option<Component<'a>>)
        ensures
            old(self).remaining().len() == 0 ==> item is None && final(self).remaining()
                == old(self).remaining(),
            old(self).remaining().len() > 0 ==> (item matches Some(component) && component@
                == old(self).remaining()[0] && final(self).remaining() == old(
                self,
            ).remaining().drop_first()),
    {
        let text = match self.rest {
            Some(text) => text,
            None => {
                return None;
            },
        };
        let rooted = self.next_is_root;
        let ghost before = pieces(text@);
        let piece = match split_once(text) {
            Some((head, tail)) => {
                proof {
                    pieces_of_joined_texts(head@, tail@);
                    pieces_of_plain_text(head@);
                    pieces_are_never_none(tail@);
                    assert(label(pieces(tail@), false) =~= label(before, rooted).drop_first());
                }
                self.rest = Some(tail);
                head
            },
            None => {
                proof {
                    pieces_of_plain_text(text@);
                    assert(label(before, rooted).drop_first() =~= Seq::empty());
                }
                self.rest = None;
                text
            },
        };
        self.next_is_root = false;
        assert(before[0] == piece@);
        if rooted {
            Some(Component::Root)
        } else if is_cur_dir(piece) {
            Some(Component::CurDir)
        } else if is_parent_dir(piece) {
            Some(Component::ParentDir)
        } else {
            Some(Component::RealPath(Path { text: piece }))
        }
    }
}

impl<'a> Path<'a> {
    /// The path that `text` spells.
    pub fn new(text: &'a str) -> (path: Self)
        ensures
            path@ == text@,
    {
        Path { text }
    }

    /// The text of the path.
    pub fn as_str(&self) -> (text: &'a str)
        ensures
            text@ == self@,
    {
        self.text
    }

    /// The file name: what follows the last `/`. A path without `/` has
    /// none.
    pub fn file_name(&self) -> (name: Option<Path<'a>>)
        ensures
            name is None <==> file_name_of(self@) is None,
            name matches Some(path) ==> file_name_of(self@) == Some(path@),
    {
        match rsplit_once(self.text) {
            Some((head, tail)) => {
                proof {
                    pieces_of_joined_texts(head@, tail@);
                    pieces_of_plain_text(tail@);
                    pieces_are_never_none(head@);
                }
                Some(Path { text: tail })
            },
            None => {
                proof {
                    pieces_of_plain_text(self@);
                }
                None
            },
        }
    }

    /// The components of the path, first to last.
    pub fn components(&self) -> (all: Components<'a>)
        ensures
            all.remaining() == components_of(self@),
    {
        let next_is_root = !self.text.is_empty() && self.text.get_char(0) == '/';
        Components { next_is_root, rest: Some(self.text) }
    }

    /// An owned copy of the path.
    pub fn to_path_buf(&self) -> (owned: PathBuf)
        ensures
            owned@ == self@,
    {
        PathBuf { text: self.text.to_owned() }
    }

    /// The length of the path in bytes, as UTF-8 spells it.
    pub fn len(&self) -> (bytes: usize)
        ensures
            bytes == encode_utf8(self@).len() as usize,
    {
        self.text.len()
    }

    /// The path as the kernel takes it.
    pub fn to_kstr_raw(&self) -> (kstr: KStrCPtr<'a>)
        ensures
            kstr@ == self@,
    {
        KStrCPtr::from_str(self.as_str())
    }
}

/// A path that owns its text.
#[derive(Debug, Hash, PartialEq, Eq)]
pub struct PathBuf {
    text: String,
}

impl View for PathBuf {
    type V = Seq<char>;

    closed spec fn view(&self) -> Seq<char> {
        self.text@
    }
}

impl Clone for PathBuf {
    fn clone(&self) -> (copy: Self)
        ensures
            copy@ == self@,
    {
        PathBuf { text: self.text.clone() }
    }
}

impl PathBuf {
    /// The empty path.
    pub fn new() -> (path: Self)
        ensures
            path@ == Seq::<char>::empty(),
    {
        PathBuf { text: String::new() }
    }

    /// The path that `text` spells.
    pub fn from_string(text: String) -> (path: Self)
        ensures
            path@ == text@,
    {
        PathBuf { text }
    }

    /// The text of the path.
    pub fn into_string(self) -> (text: String)
        ensures
            text@ == self@,
    {
        self.text
    }

    /// The path, borrowed.
    pub fn as_path(&self) -> (path: Path<'_>)
        ensures
            path@ == self@,
    {
        Path { text: self.text.as_str() }
    }
}

} // verus!
