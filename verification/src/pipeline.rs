//! The processing graph of a job and the values bound to its stages.
//!
//! The graph has one fixed shape. A job differs from another only in three
//! places: the file that the source stage reads, what the overlay stage
//! draws and where, and the file that the sink writes. This module lists
//! those bindings, and follows the construction of a graph step by step:
//! the caller instantiates the template and applies each binding with its
//! media engine, and reports how each step went.

use vstd::prelude::*;
use crate::geometry::LogoGeometry;

verus! {

/// The graph, in the launch syntax of the media engine: the video branch
/// decodes, overlays, scales and encodes to H.264; the audio branch leaves
/// the same decoder and encodes to MP3; both meet in one MP4 muxer, which
/// feeds the sink.
pub const TEMPLATE: &'static str =
    "filesrc name=input ! decodebin name=dec ! gdkpixbufoverlay name=logo ! videoscale ! x264enc ! queue ! mp4mux name=mux ! filesink name=output dec. ! audioconvert ! lamemp3enc ! queue ! mux.";

/// A stage of the graph that takes a value from the job.
#[derive(Clone, Copy, Debug, PartialEq, Eq, Structural)]
pub enum Stage {
    /// Reads the source video.
    Input,
    /// Draws the logo over the frames.
    Logo,
    /// Writes the output file.
    Output,
}

/// A property of a stage.
#[derive(Clone, Copy, Debug, PartialEq, Eq, Structural)]
pub enum Property {
    Location,
    OffsetX,
    OffsetY,
    OverlayWidth,
    OverlayHeight,
}

/// A value bound to a property.
#[derive(Clone, Debug, PartialEq, Eq)]
pub enum Value {
    Text(String),
    Number(i32),
}

/// One value bound to one property of one stage.
#[derive(Clone, Debug, PartialEq, Eq)]
pub struct Binding {
    pub stage: Stage,
    pub property: Property,
    pub value: Value,
}

/// Why a graph could not be built.
#[derive(Clone, Copy, Debug, PartialEq, Eq, Structural)]
pub enum BuildError {
    /// The template could not be instantiated.
    Unparsable,
    /// The graph has no stage of this name.
    MissingStage(Stage),
    /// The stage refused the value for this property.
    PropertyRejected(Stage, Property),
}

/// A value as the contracts see it.
pub enum ValueView {
    Text(Seq<char>),
    Number(int),
}

/// A binding as the contracts see it.
pub struct BindingView {
    pub stage: Stage,
    pub property: Property,
    pub value: ValueView,
}

impl View for Value {
    type V = ValueView;

    open spec fn view(&self) -> ValueView {
        match self {
            Value::Text(text) => ValueView::Text(text@),
            Value::Number(n) => ValueView::Number(*n as int),
        }
    }
}

impl View for Binding {
    type V = BindingView;

    open spec fn view(&self) -> BindingView {
        BindingView { stage: self.stage, property: self.property, value: self.value@ }
    }
}

/// The bindings of a list, as the contracts see them.
pub open spec fn binding_views(bindings: Seq<Binding>) -> Seq<BindingView> {
    Seq::new(bindings.len(), |i: int| bindings[i]@)
}

/// A text bound to a property.
pub open spec fn text_binding(stage: Stage, property: Property, text: Seq<char>) -> BindingView {
    BindingView { stage, property, value: ValueView::Text(text) }
}

/// A number bound to a property.
pub open spec fn number_binding(stage: Stage, property: Property, number: int) -> BindingView {
    BindingView { stage, property, value: ValueView::Number(number) }
}

/// Whether the overlay takes the size of `geometry`: its properties hold
/// signed 32-bit numbers.
pub open spec fn overlay_accepts(geometry: LogoGeometry) -> bool {
    geometry.scaled_width <= i32::MAX && geometry.scaled_height <= i32::MAX
}

/// The bindings of a job, in the order in which they are applied.
pub open spec fn planned_bindings(
    source_video: Seq<char>,
    logo_asset: Seq<char>,
    geometry: LogoGeometry,
    output_path: Seq<char>,
) -> Seq<BindingView> {
    seq![
        text_binding(Stage::Input, Property::Location, source_video),
        number_binding(Stage::Logo, Property::OffsetX, geometry.x_offset as int),
        number_binding(Stage::Logo, Property::OffsetY, geometry.y_offset as int),
        number_binding(Stage::Logo, Property::OverlayWidth, geometry.scaled_width as int),
        number_binding(Stage::Logo, Property::OverlayHeight, geometry.scaled_height as int),
        text_binding(Stage::Logo, Property::Location, logo_asset),
        text_binding(Stage::Output, Property::Location, output_path),
    ]
}

/// The first binding that cannot be made because a dimension of `geometry`
/// is no signed 32-bit number.
pub open spec fn rejected_binding(geometry: LogoGeometry) -> BuildError {
    if geometry.scaled_width > i32::MAX {
        BuildError::PropertyRejected(Stage::Logo, Property::OverlayWidth)
    } else {
        BuildError::PropertyRejected(Stage::Logo, Property::OverlayHeight)
    }
}

impl Stage {
    /// The name of the stage in the template.
    pub open spec fn spec_name(self) -> Seq<char> {
        match self {
            Stage::Input => "input"@,
            Stage::Logo => "logo"@,
            Stage::Output => "output"@,
        }
    }

    /// The name of the stage in the template.
    pub fn name(self) -> (name: &'static str)
        ensures
            name@ == self.spec_name(),
    {
        match self {
            Stage::Input => "input",
            Stage::Logo => "logo",
            Stage::Output => "output",
        }
    }
}

impl Property {
    /// The name by which the media engine knows the property.
    pub open spec fn spec_name(self) -> Seq<char> {
        match self {
            Property::Location => "location"@,
            Property::OffsetX => "offset-x"@,
            Property::OffsetY => "offset-y"@,
            Property::OverlayWidth => "overlay-width"@,
            Property::OverlayHeight => "overlay-height"@,
        }
    }

    /// The name by which the media engine knows the property.
    pub fn name(self) -> (name: &'static str)
        ensures
            name@ == self.spec_name(),
    {
        match self {
            Property::Location => "location",
            Property::OffsetX => "offset-x",
            Property::OffsetY => "offset-y",
            Property::OverlayWidth => "overlay-width",
            Property::OverlayHeight => "overlay-height",
        }
    }
}

/// Binds `text` to a property.
fn bind_text(stage: Stage, property: Property, text: &str) -> (binding: Binding)
    ensures
        binding@ == text_binding(stage, property, text@),
{
    Binding { stage, property, value: Value::Text(String::from_str(text)) }
}

/// Binds `number` to a property.
fn bind_number(stage: Stage, property: Property, number: i32) -> (binding: Binding)
    ensures
        binding@ == number_binding(stage, property, number as int),
{
    Binding { stage, property, value: Value::Number(number) }
}

/// Lists the values that a job binds to the stages of its graph, in the
/// order in which they are applied: the source video on the input stage;
/// offsets, size and image on the logo stage; the output file on the sink.
///
/// The size is refused where a dimension of `geometry` is no signed 32-bit
/// number, as the overlay would refuse it.
pub fn bindings(
    source_video: &str,
    logo_asset: &str,
    geometry: &LogoGeometry,
    output_path: &str,
) -> (result: Result<Vec<Binding>, BuildError>)
    ensures
        result is Ok <==> overlay_accepts(*geometry),
        result is Ok ==> binding_views(result->Ok_0@) == planned_bindings(
            source_video@,
            logo_asset@,
            *geometry,
            output_path@,
        ),
        result is Err ==> result->Err_0 == rejected_binding(*geometry),
{
    let limit: u32 = 0x7fff_ffff;
    if geometry.scaled_width > limit {
        return Err(BuildError::PropertyRejected(Stage::Logo, Property::OverlayWidth));
    }
    if geometry.scaled_height > limit {
        return Err(BuildError::PropertyRejected(Stage::Logo, Property::OverlayHeight));
    }
    let mut list: Vec<Binding> = Vec::new();
    list.push(bind_text(Stage::Input, Property::Location, source_video));
    list.push(bind_number(Stage::Logo, Property::OffsetX, geometry.x_offset));
    list.push(bind_number(Stage::Logo, Property::OffsetY, geometry.y_offset));
    list.push(bind_number(Stage::Logo, Property::OverlayWidth, geometry.scaled_width as i32));
    list.push(bind_number(Stage::Logo, Property::OverlayHeight, geometry.scaled_height as i32));
    list.push(bind_text(Stage::Logo, Property::Location, logo_asset));
    list.push(bind_text(Stage::Output, Property::Location, output_path));
    assert(binding_views(list@) =~= planned_bindings(
        source_video@,
        logo_asset@,
        *geometry,
        output_path@,
    ));
    Ok(list)
}

/// How far the construction of a graph has come.
#[derive(Clone, Copy, Debug, PartialEq, Eq, Structural)]
pub enum BuildProgress {
    /// Nothing is done yet: the template is to be instantiated.
    Start,
    /// The binding at this index is to be applied.
    Binding(usize),
    /// The graph stands, with every binding applied.
    Built,
    /// The construction failed.
    Failed(BuildError),
}

/// What the media engine answered to a step of the construction.
#[derive(Clone, Copy, Debug, PartialEq, Eq, Structural)]
pub enum BuildReply {
    /// The template was instantiated.
    Instantiated,
    /// The template was refused.
    Unparsable,
    /// The binding was applied.
    Bound,
    /// The graph has no stage of the name that the binding gives.
    StageMissing,
    /// The stage refused the value of the binding.
    Rejected,
}

/// What the caller is to do with the media engine next.
#[derive(Clone, Copy, Debug, PartialEq, Eq, Structural)]
pub enum BuildAction {
    /// Instantiate the template.
    Instantiate,
    /// Apply the binding at this index.
    Apply(usize),
    /// Nothing more: the construction is over.
    Stop,
}

/// The progress of a construction that has `index` of `count` bindings behind it.
pub open spec fn position(index: int, count: int) -> BuildProgress {
    if 0 <= index < count {
        BuildProgress::Binding(index as usize)
    } else {
        BuildProgress::Built
    }
}

/// The progress that follows `progress` on `reply`, for a graph that
/// takes `bindings`.
pub open spec fn advanced(
    progress: BuildProgress,
    reply: BuildReply,
    bindings: Seq<Binding>,
) -> BuildProgress {
    match progress {
        BuildProgress::Start => match reply {
            BuildReply::Instantiated => position(0, bindings.len() as int),
            BuildReply::Unparsable => BuildProgress::Failed(BuildError::Unparsable),
            _ => progress,
        },
        BuildProgress::Binding(index) => if index >= bindings.len() {
            BuildProgress::Built
        } else {
            match reply {
                BuildReply::Bound => position(index + 1, bindings.len() as int),
                BuildReply::StageMissing => BuildProgress::Failed(
                    BuildError::MissingStage(bindings[index as int].stage),
                ),
                BuildReply::Rejected => BuildProgress::Failed(
                    BuildError::PropertyRejected(
                        bindings[index as int].stage,
                        bindings[index as int].property,
                    ),
                ),
                _ => progress,
            }
        },
        _ => progress,
    }
}

/// The progress reached from `progress` after `replies`, in their order.
pub open spec fn progress_after(
    progress: BuildProgress,
    replies: Seq<BuildReply>,
    bindings: Seq<Binding>,
) -> BuildProgress
    decreases replies.len(),
{
    if replies.len() == 0 {
        progress
    } else {
        advanced(progress_after(progress, replies.drop_last(), bindings), replies.last(), bindings)
    }
}

/// The replies of a media engine that accepts the template and then
/// `count` bindings.
pub open spec fn acceptances(count: nat) -> Seq<BuildReply> {
    seq![BuildReply::Instantiated] + Seq::new(count, |i: int| BuildReply::Bound)
}

impl BuildProgress {
    /// Whether the construction is over.
    pub open spec fn is_over(self) -> bool {
        self is Built || self is Failed
    }

    /// What the caller is to do next.
    pub open spec fn spec_pending(self) -> BuildAction {
        match self {
            BuildProgress::Start => BuildAction::Instantiate,
            BuildProgress::Binding(index) => BuildAction::Apply(index),
            _ => BuildAction::Stop,
        }
    }

    /// The result of the construction, once it is over.
    pub open spec fn spec_outcome(self) -> Option<Result<(), BuildError>> {
        match self {
            BuildProgress::Built => Some(Ok(())),
            BuildProgress::Failed(error) => Some(Err(error)),
            _ => None,
        }
    }

    /// What the caller is to do next.
    pub fn pending(self) -> (action: BuildAction)
        ensures
            action == self.spec_pending(),
    {
        match self {
            BuildProgress::Start => BuildAction::Instantiate,
            BuildProgress::Binding(index) => BuildAction::Apply(index),
            _ => BuildAction::Stop,
        }
    }

    /// The result of the construction, once it is over.
    pub fn outcome(self) -> (result: Option<Result<(), BuildError>>)
        ensures
            result == self.spec_outcome(),
    {
        match self {
            BuildProgress::Built => Some(Ok(())),
            BuildProgress::Failed(error) => Some(Err(error)),
            _ => None,
        }
    }
}

/// Takes the answer of the media engine to the pending step.
///
/// An accepted template leads to the first binding, an accepted binding to
/// the next, and the last one to a built graph. A refused template fails
/// the construction as unparsable; a binding fails it with the stage that
/// was not found, or with the stage and property that refused the value.
/// An answer that does not fit the pending step changes nothing.
pub fn advance(progress: BuildProgress, reply: BuildReply, bindings: &Vec<Binding>) -> (next:
    BuildProgress)
    ensures
        next == advanced(progress, reply, bindings@),
{
    match progress {
        BuildProgress::Start => match reply {
            BuildReply::Instantiated => if bindings.len() > 0 {
                BuildProgress::Binding(0)
            } else {
                BuildProgress::Built
            },
            BuildReply::Unparsable => BuildProgress::Failed(BuildError::Unparsable),
            _ => progress,
        },
        BuildProgress::Binding(index) => if index >= bindings.len() {
            BuildProgress::Built
        } else {
            match reply {
                BuildReply::Bound => if index + 1 < bindings.len() {
                    BuildProgress::Binding(index + 1)
                } else {
                    BuildProgress::Built
                },
                BuildReply::StageMissing => BuildProgress::Failed(
                    BuildError::MissingStage(bindings[index].stage),
                ),
                BuildReply::Rejected => BuildProgress::Failed(
                    BuildError::PropertyRejected(bindings[index].stage, bindings[index].property),
                ),
                _ => progress,
            }
        },
        _ => progress,
    }
}

/// A construction that is over stays as it is, whatever is answered.
pub proof fn finished_build_stays(
    progress: BuildProgress,
    replies: Seq<BuildReply>,
    bindings: Seq<Binding>,
)
    requires
        progress.is_over(),
    ensures
        progress_after(progress, replies, bindings) == progress,
    decreases replies.len(),
{
    if replies.len() > 0 {
        finished_build_stays(progress, replies.drop_last(), bindings);
    }
}

/// Where the media engine accepts the template and the first `count`
/// bindings, the construction stands at binding `count`, or is built if
/// that was the last.
pub proof fn accepted_steps_advance(bindings: Seq<Binding>, count: nat)
    requires
        count <= bindings.len() <= usize::MAX,
    ensures
        progress_after(BuildProgress::Start, acceptances(count), bindings) == position(
            count as int,
            bindings.len() as int,
        ),
    decreases count,
{
    let replies = acceptances(count);
    if count == 0 {
        assert(replies.drop_last() =~= Seq::<BuildReply>::empty());
        assert(progress_after(BuildProgress::Start, replies.drop_last(), bindings)
            == BuildProgress::Start);
    } else {
        assert(replies.drop_last() =~= acceptances((count - 1) as nat));
        accepted_steps_advance(bindings, (count - 1) as nat);
    }
}

/// A graph is built once the media engine has accepted the template and
/// every binding.
pub proof fn accepting_every_step_builds(bindings: Seq<Binding>)
    requires
        bindings.len() <= usize::MAX,
    ensures
        progress_after(BuildProgress::Start, acceptances(bindings.len()), bindings)
            == BuildProgress::Built,
{
    accepted_steps_advance(bindings, bindings.len());
}

} // verus!
