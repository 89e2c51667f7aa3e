use logo_embedder::error::DriverError;
use logo_embedder::error::JobError;
use logo_embedder::geometry::Corner;
use logo_embedder::geometry::GeometryError;
use logo_embedder::geometry::LogoGeometry;
use logo_embedder::job::gather;
use logo_embedder::job::plan;
use logo_embedder::job::select_corner;
use logo_embedder::job::JobParameters;
use logo_embedder::output_path::PathError;
use logo_embedder::pipeline::BuildError;
use logo_embedder::pipeline::Property;
use logo_embedder::pipeline::Stage;
use logo_embedder::pipeline::Value;
use logo_embedder::raster::Prepared;
use logo_embedder::raster::PreprocessError;
use logo_embedder::raster::Raster;

fn parameters(target_width: Option<u32>, video: &str, output_dir: Option<&str>) -> JobParameters {
    JobParameters {
        logo_path: "/logos/logo.png".to_string(),
        corner: Corner::BottomRight,
        target_width,
        source_video_path: video.to_string(),
        output_dir: output_dir.map(|d| d.to_string()),
    }
}

fn logo(width: u32, height: u32) -> Raster {
    Raster::new(width, height, vec![255u8; width as usize * height as usize * 4]).unwrap()
}

#[test]
fn corner_selection() {
    assert_eq!(select_corner(true, false, false, false), Some(Corner::TopLeft));
    assert_eq!(select_corner(false, true, false, false), Some(Corner::TopRight));
    assert_eq!(select_corner(false, false, true, false), Some(Corner::BottomLeft));
    assert_eq!(select_corner(false, false, false, true), Some(Corner::BottomRight));
    assert_eq!(select_corner(false, false, false, false), None);
}

#[test]
fn corner_selection_order() {
    assert_eq!(select_corner(true, true, true, true), Some(Corner::BottomRight));
    assert_eq!(select_corner(true, true, true, false), Some(Corner::BottomLeft));
    assert_eq!(select_corner(true, true, false, false), Some(Corner::TopRight));
}

#[test]
fn complete_input_is_gathered() {
    let p = gather(
        Some("/l.png".to_string()),
        Some("/v.mov".to_string()),
        Some(Corner::TopRight),
        Some(120),
        None,
    )
    .unwrap();
    assert_eq!(
        p,
        JobParameters {
            logo_path: "/l.png".to_string(),
            corner: Corner::TopRight,
            target_width: Some(120),
            source_video_path: "/v.mov".to_string(),
            output_dir: None,
        }
    );
}

#[test]
fn incomplete_input_is_refused() {
    let l = || Some("/l.png".to_string());
    let v = || Some("/v.mov".to_string());
    let c = Some(Corner::TopLeft);
    assert_eq!(gather(None, v(), c, Some(1), None), Err(JobError::InvalidInput));
    assert_eq!(gather(l(), None, c, Some(1), None), Err(JobError::InvalidInput));
    assert_eq!(gather(l(), v(), None, Some(1), None), Err(JobError::InvalidInput));
    assert_eq!(gather(None, None, None, None, None), Err(JobError::InvalidInput));
    assert!(gather(l(), v(), c, None, Some("/out".to_string())).is_ok());
}

#[test]
fn plan_of_a_scaled_logo() {
    let p = parameters(Some(40), "/a/b/clip.mov", None);
    let made = plan(&p, &logo(100, 50)).unwrap();
    assert_eq!(
        made.geometry,
        LogoGeometry { scaled_width: 40, scaled_height: 20, x_offset: -20, y_offset: -20 }
    );
    assert_eq!(made.output_path, "/a/b/clip-com-logo.mp4");
    match &made.logo {
        Prepared::Scaled(r) => {
            assert_eq!((r.width(), r.height()), (40, 20));
            assert_eq!(r.pixels().len(), 3200);
        }
        Prepared::Unchanged => panic!("the logo was not scaled"),
    }
    let list = made.bindings(&p, "/tmp/cfclogo-1.png").unwrap();
    assert_eq!(list.len(), 7);
    assert_eq!(list[0].value, Value::Text("/a/b/clip.mov".to_string()));
    assert_eq!(list[1].value, Value::Number(-20));
    assert_eq!(list[2].value, Value::Number(-20));
    assert_eq!(list[3].value, Value::Number(40));
    assert_eq!(list[4].value, Value::Number(20));
    assert_eq!(list[5].value, Value::Text("/tmp/cfclogo-1.png".to_string()));
    assert_eq!(list[6].value, Value::Text("/a/b/clip-com-logo.mp4".to_string()));
    assert_eq!((list[6].stage, list[6].property), (Stage::Output, Property::Location));
}

#[test]
fn plan_of_a_logo_at_its_own_size() {
    let p = parameters(None, "/a/b/clip.mov", Some("/x"));
    let made = plan(&p, &logo(64, 32)).unwrap();
    assert_eq!(made.geometry.scaled_width, 64);
    assert_eq!(made.geometry.scaled_height, 32);
    assert_eq!(made.output_path, "/x/clip-com-logo.mp4");
    assert!(matches!(made.logo, Prepared::Unchanged));
}

#[test]
fn plan_fails_on_a_degenerate_size() {
    let p = parameters(Some(0), "/a/b/clip.mov", None);
    assert_eq!(plan(&p, &logo(100, 50)).err(), Some(JobError::InvalidGeometry));
}

#[test]
fn plan_fails_without_a_file_name() {
    let p = parameters(Some(40), "/a/b/..", None);
    assert_eq!(plan(&p, &logo(100, 50)).err(), Some(JobError::InvalidInput));
    let p = parameters(Some(40), "", Some("/x"));
    assert_eq!(plan(&p, &logo(100, 50)).err(), Some(JobError::InvalidInput));
}

#[test]
fn plan_fails_on_a_size_that_cannot_be_scaled() {
    let p = parameters(Some(70000), "/a/b/clip.mov", None);
    assert_eq!(
        plan(&p, &logo(100, 50)).err(),
        Some(JobError::Preprocess(PreprocessError::Resize))
    );
}

#[test]
fn geometry_comes_before_the_path() {
    let p = parameters(Some(0), "", None);
    assert_eq!(plan(&p, &logo(100, 50)).err(), Some(JobError::InvalidGeometry));
}

#[test]
fn error_conversions() {
    assert_eq!(JobError::from_geometry(GeometryError::InvalidGeometry), JobError::InvalidGeometry);
    assert_eq!(JobError::from_path(PathError::InvalidPath), JobError::InvalidInput);
}

#[test]
fn runtime_cause_is_handed_on_unchanged() {
    let cause = "Internal data stream error: not-negotiated (-4)";
    assert_eq!(JobError::PipelineRuntime(cause.to_string()).message(), cause);
    assert_eq!(JobError::PipelineRuntime(String::new()).message(), "");
}

#[test]
fn messages_of_the_other_errors() {
    assert_eq!(JobError::InvalidInput.message(), "input incomplete");
    assert_eq!(JobError::InvalidGeometry.message(), "the logo has no valid size");
    assert_eq!(
        JobError::Preprocess(PreprocessError::Decode).message(),
        "the logo could not be decoded"
    );
    assert_eq!(
        JobError::Preprocess(PreprocessError::Resize).message(),
        "the logo could not be scaled"
    );
    assert_eq!(
        JobError::Preprocess(PreprocessError::Io).message(),
        "the scaled logo could not be written"
    );
    assert_eq!(
        JobError::Build(BuildError::Unparsable).message(),
        "the pipeline could not be constructed"
    );
    assert_eq!(
        JobError::Build(BuildError::MissingStage(Stage::Logo)).message(),
        "the pipeline lacks a stage"
    );
    assert_eq!(
        JobError::Build(BuildError::PropertyRejected(Stage::Logo, Property::OffsetX)).message(),
        "a stage rejected a value"
    );
    assert_eq!(
        JobError::Driver(DriverError::StateChangeRejected).message(),
        "the pipeline refused to start"
    );
}
