//! The data model: line roles, lines, hunk-header grouping keys,
//! hunks, whole diffs, and the stream events they are built from.

use vstd::prelude::*;

verus! {

/// Role of one line of a diff, as classified from the diff engine's
/// one-character origin marker.
#[derive(Copy, Clone, PartialEq, Eq, Structural, Hash, Debug)]
pub enum DiffLineType {
    Unclassified,
    Header,
    Add,
    Delete,
}

impl Default for DiffLineType {
    fn default() -> (r: Self)
        ensures
            r == DiffLineType::Unclassified,
    {
        DiffLineType::Unclassified
    }
}

/// The role that an origin marker denotes: 'H' marks a hunk header,
/// '-' and '<' deletions, '+' and '>' additions; any other marker is
/// left unclassified.
pub open spec fn classify_spec(origin: char) -> DiffLineType {
    if origin == 'H' {
        DiffLineType::Header
    } else if origin == '<' || origin == '-' {
        DiffLineType::Delete
    } else if origin == '>' || origin == '+' {
        DiffLineType::Add
    } else {
        DiffLineType::Unclassified
    }
}

/// Classify a line by its origin marker.
pub fn classify_origin(origin: char) -> (t: DiffLineType)
    ensures
        t == classify_spec(origin),
{
    match origin {
        'H' => DiffLineType::Header,
        '<' | '-' => DiffLineType::Delete,
        '>' | '+' => DiffLineType::Add,
        _ => DiffLineType::Unclassified,
    }
}

/// One rendered line of a diff: its text, decoded permissively from
/// the engine's raw bytes, and its classified role.
#[derive(Clone, Hash, Debug)]
pub struct DiffLine {
    pub content: String,
    pub line_type: DiffLineType,
}

/// Mathematical value of a `DiffLine`.
#[verifier::ext_equal]
pub ghost struct DiffLineV {
    pub content: Seq<char>,
    pub line_type: DiffLineType,
}

impl View for DiffLine {
    type V = DiffLineV;

    open spec fn view(&self) -> DiffLineV {
        DiffLineV { content: self.content@, line_type: self.line_type }
    }
}

impl Default for DiffLine {
    fn default() -> (r: Self)
        ensures
            r@.content == Seq::<char>::empty(),
            r@.line_type == DiffLineType::Unclassified,
    {
        DiffLine { content: String::new(), line_type: DiffLineType::Unclassified }
    }
}

/// Grouping key by which hunk boundaries are detected: the four
/// line-range markers of a hunk header. Two headers denote the same
/// hunk exactly when all four fields are equal.
#[derive(Clone, Copy, PartialEq, Eq, Structural, Debug)]
pub struct HunkHeader {
    pub old_start: u32,
    pub old_lines: u32,
    pub new_start: u32,
    pub new_lines: u32,
}

impl Default for HunkHeader {
    fn default() -> (r: Self)
        ensures
            r == (HunkHeader { old_start: 0, old_lines: 0, new_start: 0, new_lines: 0 }),
    {
        HunkHeader { old_start: 0, old_lines: 0, new_start: 0, new_lines: 0 }
    }
}

/// Header equality is equality of all four range fields.
pub proof fn lemma_header_eq_is_field_eq(a: HunkHeader, b: HunkHeader)
    ensures
        (a == b) <==> (a.old_start == b.old_start && a.old_lines == b.old_lines
            && a.new_start == b.new_start && a.new_lines == b.new_lines),
{
}

/// One contiguous block of diff lines, in the engine's emission
/// order.
#[derive(Clone, Hash, Debug)]
pub struct Hunk(pub Vec<DiffLine>);

impl View for Hunk {
    type V = Seq<DiffLineV>;

    open spec fn view(&self) -> Seq<DiffLineV> {
        self.0@.map_values(|l: DiffLine| l@)
    }
}

impl Default for Hunk {
    fn default() -> (r: Self)
        ensures
            r@ == Seq::<DiffLineV>::empty(),
    {
        let v: Vec<DiffLine> = Vec::new();
        let h = Hunk(v);
        proof {
            assert(h@ =~= Seq::<DiffLineV>::empty());
        }
        h
    }
}

/// The final result: the ordered hunks, and the total number of
/// lines over all hunks, saturating at the 16-bit maximum.
#[derive(Clone, Hash, Debug)]
pub struct Diff(pub Vec<Hunk>, pub u16);

/// Mathematical value of a `Diff`.
#[verifier::ext_equal]
pub ghost struct DiffV {
    pub hunks: Seq<Seq<DiffLineV>>,
    pub total: int,
}

impl View for Diff {
    type V = DiffV;

    open spec fn view(&self) -> DiffV {
        DiffV { hunks: self.0@.map_values(|h: Hunk| h@), total: self.1 as int }
    }
}

impl Default for Diff {
    fn default() -> (r: Self)
        ensures
            r@.hunks == Seq::<Seq<DiffLineV>>::empty(),
            r@.total == 0,
    {
        let v: Vec<Hunk> = Vec::new();
        let d = Diff(v, 0);
        proof {
            assert(d@.hunks =~= Seq::<Seq<DiffLineV>>::empty());
        }
        d
    }
}

/// One event of the diff engine's line stream: the hunk header the
/// line was reported under (if any), the origin marker, and the raw
/// bytes of the line.
#[derive(Clone, Debug)]
pub struct DiffEvent {
    pub header: Option<HunkHeader>,
    pub origin: char,
    pub content: Vec<u8>,
}

/// Mathematical value of a `DiffEvent`.
#[verifier::ext_equal]
pub ghost struct EventV {
    pub header: Option<HunkHeader>,
    pub origin: char,
    pub content: Seq<u8>,
}

impl View for DiffEvent {
    type V = EventV;

    open spec fn view(&self) -> EventV {
        EventV { header: self.header, origin: self.origin, content: self.content@ }
    }
}

} // verus!
