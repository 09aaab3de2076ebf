//! Argument expressions and their classification.
//!
//! Classification is structural: an argument is judged by the shape of the
//! expression that produces it, never by a runtime value.

use vstd::prelude::*;

verus! {

/// The three shapes an argument expression can have.
#[derive(Clone, Copy, Debug, PartialEq, Eq, Structural)]
pub enum ArgumentKind {
    /// A compile-time constant.
    Literal,
    /// Formatting or concatenation with a part that is not constant.
    Interpolated,
    /// A bare reference whose value is unknown at analysis time.
    Opaque,
}

impl ArgumentKind {
    /// Whether a value of this kind can hold content that is not constant.
    pub open spec fn tainted(self) -> bool {
        self != ArgumentKind::Literal
    }

    /// Decides `tainted`.
    pub fn is_tainted(self) -> (r: bool)
        ensures
            r == self.tainted(),
    {
        match self {
            ArgumentKind::Literal => false,
            ArgumentKind::Interpolated => true,
            ArgumentKind::Opaque => true,
        }
    }
}

/// One segment of a formatted or concatenated string.
#[derive(Clone, Debug, PartialEq, Eq)]
pub enum Segment {
    /// Constant text.
    Constant(String),
    /// A part computed at run time, named by the expression that yields it.
    Dynamic(String),
}

/// The mathematical value of a [`Segment`].
pub enum SegmentModel {
    Constant(Seq<char>),
    Dynamic(Seq<char>),
}

impl View for Segment {
    type V = SegmentModel;

    open spec fn view(&self) -> SegmentModel {
        match self {
            Segment::Constant(text) => SegmentModel::Constant(text@),
            Segment::Dynamic(source) => SegmentModel::Dynamic(source@),
        }
    }
}

impl DeepView for Segment {
    type V = SegmentModel;

    open spec fn deep_view(&self) -> SegmentModel {
        self@
    }
}

impl Segment {
    /// Whether this segment is computed at run time.
    pub fn is_dynamic(&self) -> (r: bool)
        ensures
            r == (self@ is Dynamic),
    {
        match self {
            Segment::Constant(_) => false,
            Segment::Dynamic(_) => true,
        }
    }
}

/// One argument of a process invocation, as the expression that produces it.
#[derive(Clone, Debug, PartialEq, Eq)]
pub enum ArgumentExpr {
    /// A compile-time constant string.
    Literal(String),
    /// A string built from the given segments, in order.
    Interpolated(Vec<Segment>),
    /// A bare reference, named by its source text.
    Opaque(String),
}

/// The mathematical value of an [`ArgumentExpr`].
pub enum ArgumentModel {
    Literal(Seq<char>),
    Interpolated(Seq<SegmentModel>),
    Opaque(Seq<char>),
}

impl View for ArgumentExpr {
    type V = ArgumentModel;

    open spec fn view(&self) -> ArgumentModel {
        match self {
            ArgumentExpr::Literal(text) => ArgumentModel::Literal(text@),
            ArgumentExpr::Interpolated(parts) => ArgumentModel::Interpolated(parts.deep_view()),
            ArgumentExpr::Opaque(source) => ArgumentModel::Opaque(source@),
        }
    }
}

impl DeepView for ArgumentExpr {
    type V = ArgumentModel;

    open spec fn deep_view(&self) -> ArgumentModel {
        self@
    }
}

/// Whether some segment of `parts` is computed at run time.
pub open spec fn has_dynamic(parts: Seq<SegmentModel>) -> bool {
    exists|i: int| 0 <= i < parts.len() && #[trigger] parts[i] is Dynamic
}

/// The text a segment contributes to a constant string.
pub open spec fn constant_part(segment: SegmentModel) -> Seq<char> {
    match segment {
        SegmentModel::Constant(text) => text,
        SegmentModel::Dynamic(_) => Seq::empty(),
    }
}

/// The constant segments of `parts`, joined in order.
pub open spec fn joined_constants(parts: Seq<SegmentModel>) -> Seq<char>
    decreases parts.len(),
{
    if parts.len() == 0 {
        Seq::empty()
    } else {
        joined_constants(parts.drop_last()) + constant_part(parts.last())
    }
}

/// The argument that a sequence of segments amounts to: a literal where every
/// segment is constant, a bare reference where the one segment is dynamic,
/// and an interpolation otherwise.
pub open spec fn classify_parts(parts: Seq<SegmentModel>) -> ArgumentModel {
    if !has_dynamic(parts) {
        ArgumentModel::Literal(joined_constants(parts))
    } else if parts.len() == 1 {
        ArgumentModel::Opaque(parts[0]->Dynamic_0)
    } else {
        ArgumentModel::Interpolated(parts)
    }
}

impl ArgumentModel {
    /// The variant of this value.
    pub open spec fn kind(self) -> ArgumentKind {
        match self {
            ArgumentModel::Literal(_) => ArgumentKind::Literal,
            ArgumentModel::Interpolated(_) => ArgumentKind::Interpolated,
            ArgumentModel::Opaque(_) => ArgumentKind::Opaque,
        }
    }

    /// An interpolation holds at least one segment that is not constant.
    pub open spec fn well_formed(self) -> bool {
        self matches ArgumentModel::Interpolated(parts) ==> has_dynamic(parts)
    }

    /// An interpolation holds at least one segment that is not constant, and
    /// another segment beside it.
    pub open spec fn canonical(self) -> bool {
        self matches ArgumentModel::Interpolated(parts) ==> has_dynamic(parts) && parts.len() >= 2
    }

    /// This value as classification leaves it.
    pub open spec fn classified(self) -> ArgumentModel {
        match self {
            ArgumentModel::Literal(_) => self,
            ArgumentModel::Interpolated(parts) => classify_parts(parts),
            ArgumentModel::Opaque(_) => self,
        }
    }

    /// The kind that classification assigns to this value.
    pub open spec fn classification(self) -> ArgumentKind {
        self.classified().kind()
    }
}

/// Decides `has_dynamic`.
pub fn any_dynamic(parts: &Vec<Segment>) -> (r: bool)
    ensures
        r == has_dynamic(parts.deep_view()),
{
    let n = parts.len();
    for i in 0..n
        invariant
            n == parts.len(),
            forall|j: int| 0 <= j < i ==> !(#[trigger] parts.deep_view()[j] is Dynamic),
    {
        if parts[i].is_dynamic() {
            assert(parts.deep_view()[i as int] is Dynamic);
            return true;
        }
    }
    false
}

/// Computes `joined_constants`.
pub fn join_constants(parts: &Vec<Segment>) -> (text: String)
    ensures
        text@ == joined_constants(parts.deep_view()),
{
    let ghost model = parts.deep_view();
    let mut text = String::new();
    let n = parts.len();
    for i in 0..n
        invariant
            n == parts.len(),
            model == parts.deep_view(),
            text@ == joined_constants(model.take(i as int)),
    {
        assert(model.take(i + 1).drop_last() == model.take(i as int));
        match &parts[i] {
            Segment::Constant(piece) => {
                text.append(piece.as_str());
            },
            Segment::Dynamic(_) => {},
        }
    }
    assert(model.take(n as int) == model);
    text
}

impl ArgumentExpr {
    /// Classifies the string built from `parts`.
    pub fn from_parts(parts: Vec<Segment>) -> (e: ArgumentExpr)
        ensures
            e@ == classify_parts(parts.deep_view()),
    {
        let ghost model = parts.deep_view();
        let mut parts = parts;
        if parts.len() == 1 {
            match parts.pop() {
                Some(Segment::Dynamic(source)) => {
                    return ArgumentExpr::Opaque(source);
                },
                Some(segment) => {
                    parts.push(segment);
                },
                None => {},
            }
        }
        assert(parts.deep_view() == model);
        if any_dynamic(&parts) {
            ArgumentExpr::Interpolated(parts)
        } else {
            ArgumentExpr::Literal(join_constants(&parts))
        }
    }

    /// Re-validates this expression: a value that was handed over as an
    /// interpolation is classified from its segments; a literal and a bare
    /// reference stay as they are.
    pub fn classify(self) -> (e: ArgumentExpr)
        ensures
            e@ == self@.classified(),
    {
        match self {
            ArgumentExpr::Literal(text) => ArgumentExpr::Literal(text),
            ArgumentExpr::Interpolated(parts) => ArgumentExpr::from_parts(parts),
            ArgumentExpr::Opaque(source) => ArgumentExpr::Opaque(source),
        }
    }

    /// The variant of this expression.
    pub fn kind(&self) -> (k: ArgumentKind)
        ensures
            k == self@.kind(),
    {
        match self {
            ArgumentExpr::Literal(_) => ArgumentKind::Literal,
            ArgumentExpr::Interpolated(_) => ArgumentKind::Interpolated,
            ArgumentExpr::Opaque(_) => ArgumentKind::Opaque,
        }
    }

    /// The kind that `classify` would give this expression.
    pub fn classification(&self) -> (k: ArgumentKind)
        ensures
            k == self@.classification(),
    {
        match self {
            ArgumentExpr::Literal(_) => ArgumentKind::Literal,
            ArgumentExpr::Interpolated(parts) => {
                if !any_dynamic(parts) {
                    ArgumentKind::Literal
                } else if parts.len() == 1 {
                    ArgumentKind::Opaque
                } else {
                    ArgumentKind::Interpolated
                }
            },
            ArgumentExpr::Opaque(_) => ArgumentKind::Opaque,
        }
    }
}

/// Classification yields a canonical value.
pub proof fn lemma_classified_is_canonical(e: ArgumentModel)
    ensures
        e.classified().canonical(),
        e.classified().well_formed(),
{
}

/// Classification changes a value exactly when it is not canonical.
pub proof fn lemma_canonical_is_fixed(e: ArgumentModel)
    ensures
        e.canonical() <==> e.classified() == e,
{
}

/// Classifying a second time changes nothing.
pub proof fn lemma_classified_idempotent(e: ArgumentModel)
    ensures
        e.classified().classified() == e.classified(),
{
}

/// On a well-formed value classification never turns an interpolation or a
/// bare reference into a literal, nor a literal into anything else.
pub proof fn lemma_well_formed_keeps_taint(e: ArgumentModel)
    requires
        e.well_formed(),
    ensures
        e.classification().tainted() == e.kind().tainted(),
        e is Literal ==> e.classified() == e,
        e is Opaque ==> e.classified() == e,
{
}

/// The rule of classification, by the segments of an interpolation: a
/// literal when none is dynamic, a bare reference when the only one is
/// dynamic, an interpolation when one is dynamic and another stands beside
/// it.
pub proof fn lemma_classification_rule(parts: Seq<SegmentModel>)
    ensures
        classify_parts(parts) is Literal <==> forall|i: int|
            0 <= i < parts.len() ==> #[trigger] parts[i] is Constant,
        classify_parts(parts) is Opaque <==> parts.len() == 1 && parts[0] is Dynamic,
        classify_parts(parts) is Interpolated <==> parts.len() >= 2 && has_dynamic(parts),
{
}

} // verus!
