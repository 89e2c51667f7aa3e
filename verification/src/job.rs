//! A job from the user's choices to the values that the graph is built from.
//!
//! What the user chose is gathered into the parameters of a job. From the
//! parameters and the decoded logo a plan is derived: the geometry of the
//! overlay, the path of the output file, and the logo as the overlay is to
//! show it. The plan then gives the bindings of the graph.

use vstd::prelude::*;
use crate::error::JobError;
use crate::geometry::compute;
use crate::geometry::geometry_defined;
use crate::geometry::geometry_of;
use crate::geometry::Corner;
use crate::geometry::LogoGeometry;
use crate::output_path::file_name;
use crate::output_path::resolve;
use crate::output_path::resolved;
use crate::pipeline::bindings;
use crate::pipeline::binding_views;
use crate::pipeline::overlay_accepts;
use crate::pipeline::planned_bindings;
use crate::pipeline::rejected_binding;
use crate::pipeline::Binding;
use crate::raster::can_scale;
use crate::raster::prepare;
use crate::raster::prepared_as;
use crate::raster::Prepared;
use crate::raster::PreprocessError;
use crate::raster::Raster;

verus! {

/// What a job is made from. Gathered once, never changed.
#[derive(Clone, Debug, PartialEq, Eq)]
pub struct JobParameters {
    /// The image that is laid over the video.
    pub logo_path: String,
    /// The corner that the logo is anchored to.
    pub corner: Corner,
    /// The width at which the logo is drawn; without one it keeps its own size.
    pub target_width: Option<u32>,
    /// The video that the logo is laid over.
    pub source_video_path: String,
    /// Where the output is written; without one, beside the source video.
    pub output_dir: Option<String>,
}

/// What is derived from the parameters and the logo before a graph is built.
#[derive(Debug)]
pub struct JobPlan {
    /// Size and position of the overlay.
    pub geometry: LogoGeometry,
    /// The file that the job writes.
    pub output_path: String,
    /// The logo as the overlay is to show it.
    pub logo: Prepared,
}

/// The corner that is chosen where the four switches stand as given: the
/// first that is on, looking at bottom right, bottom left, top right and
/// top left in that order; none where all are off.
pub open spec fn selected_corner(
    top_left: bool,
    top_right: bool,
    bottom_left: bool,
    bottom_right: bool,
) -> Option<Corner> {
    if bottom_right {
        Some(Corner::BottomRight)
    } else if bottom_left {
        Some(Corner::BottomLeft)
    } else if top_right {
        Some(Corner::TopRight)
    } else if top_left {
        Some(Corner::TopLeft)
    } else {
        None
    }
}

/// Reads the corner off four switches, one for each corner.
pub fn select_corner(top_left: bool, top_right: bool, bottom_left: bool, bottom_right: bool) -> (corner:
    Option<Corner>)
    ensures
        corner == selected_corner(top_left, top_right, bottom_left, bottom_right),
{
    if bottom_right {
        Some(Corner::BottomRight)
    } else if bottom_left {
        Some(Corner::BottomLeft)
    } else if top_right {
        Some(Corner::TopRight)
    } else if top_left {
        Some(Corner::TopLeft)
    } else {
        None
    }
}

/// Gathers the user's choices into the parameters of a job. The input is
/// incomplete where the logo, the video or the corner was not chosen.
pub fn gather(
    logo_path: Option<String>,
    source_video_path: Option<String>,
    corner: Option<Corner>,
    target_width: Option<u32>,
    output_dir: Option<String>,
) -> (result: Result<JobParameters, JobError>)
    ensures
        result is Ok <==> logo_path is Some && source_video_path is Some && corner is Some,
        result is Ok ==> result->Ok_0 == (JobParameters {
            logo_path: logo_path->Some_0,
            corner: corner->Some_0,
            target_width,
            source_video_path: source_video_path->Some_0,
            output_dir,
        }),
        result is Err ==> result->Err_0 == JobError::InvalidInput,
{
    match (logo_path, source_video_path, corner) {
        (Some(logo_path), Some(source_video_path), Some(corner)) => Ok(
            JobParameters { logo_path, corner, target_width, source_video_path, output_dir },
        ),
        _ => Err(JobError::InvalidInput),
    }
}

impl JobParameters {
    /// The text of the output directory, where one was chosen.
    pub open spec fn spec_output_dir(&self) -> Option<Seq<char>> {
        match self.output_dir {
            Some(dir) => Some(dir@),
            None => None,
        }
    }
}

/// What `plan` owes for the given parameters and a logo of `width` x
/// `height` that holds `pixels`.
pub open spec fn planned(
    parameters: JobParameters,
    width: u32,
    height: u32,
    pixels: Seq<u8>,
    result: Result<JobPlan, JobError>,
) -> bool {
    let geometry = geometry_of(parameters.corner, parameters.target_width, width, height);
    if !geometry_defined(parameters.target_width, width, height) {
        result is Err && result->Err_0 == JobError::InvalidGeometry
    } else if file_name(parameters.source_video_path@) is None {
        result is Err && result->Err_0 == JobError::InvalidInput
    } else if (geometry.scaled_width != width || geometry.scaled_height != height) && !can_scale(
        width,
        height,
        geometry.scaled_width,
        geometry.scaled_height,
    ) {
        result is Err && result->Err_0 == JobError::Preprocess(PreprocessError::Resize)
    } else {
        &&& result is Ok
        &&& result->Ok_0.geometry == geometry
        &&& Ok::<Seq<char>, crate::output_path::PathError>(result->Ok_0.output_path@) == resolved(
            parameters.source_video_path@,
            parameters.spec_output_dir(),
        )
        &&& prepared_as(
            width,
            height,
            pixels,
            geometry,
            Ok::<Prepared, PreprocessError>(result->Ok_0.logo),
        )
    }
}

/// Derives the plan of a job from its parameters and the decoded logo.
///
/// The geometry comes first: a logo without a valid size ends the job.
/// Then the output path, which needs a source path that names a file. Then
/// the logo is made ready, scaled where its size differs from the geometry.
pub fn plan(parameters: &JobParameters, logo: &Raster) -> (result: Result<JobPlan, JobError>)
    requires
        logo.wf(),
    ensures
        planned(*parameters, logo.spec_width(), logo.spec_height(), logo.spec_pixels(), result),
{
    let geometry = match compute(
        parameters.corner,
        parameters.target_width,
        logo.width(),
        logo.height(),
    ) {
        Ok(geometry) => geometry,
        Err(error) => {
            return Err(JobError::from_geometry(error));
        },
    };
    let output_dir: Option<&str> = match &parameters.output_dir {
        Some(dir) => Some(dir.as_str()),
        None => None,
    };
    let output_path = match resolve(parameters.source_video_path.as_str(), output_dir) {
        Ok(path) => path,
        Err(error) => {
            return Err(JobError::from_path(error));
        },
    };
    match prepare(logo, &geometry) {
        Ok(prepared) => Ok(JobPlan { geometry, output_path, logo: prepared }),
        Err(error) => Err(JobError::Preprocess(error)),
    }
}

impl JobPlan {
    /// Lists the bindings of the graph for this plan. `logo_asset` is the
    /// file that the overlay reads: the logo itself where it is used as it
    /// is, else the file that the scaled logo was written to.
    pub fn bindings(&self, parameters: &JobParameters, logo_asset: &str) -> (result: Result<
        Vec<Binding>,
        JobError,
    >)
        ensures
            result is Ok <==> overlay_accepts(self.geometry),
            result is Ok ==> binding_views(result->Ok_0@) == planned_bindings(
                parameters.source_video_path@,
                logo_asset@,
                self.geometry,
                self.output_path@,
            ),
            result is Err ==> result->Err_0 == JobError::Build(rejected_binding(self.geometry)),
    {
        match bindings(
            parameters.source_video_path.as_str(),
            logo_asset,
            &self.geometry,
            self.output_path.as_str(),
        ) {
            Ok(list) => Ok(list),
            Err(error) => Err(JobError::Build(error)),
        }
    }
}

} // verus!
