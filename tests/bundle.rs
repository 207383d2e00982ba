use mfekinit::error::{InitError, InitResult};
use mfekinit::templates::{Template, CONTENTS_PLIST, LAYERCONTENTS_PLIST, METAINFO_PLIST};
use mfekinit::ufo::{bundle_next, bundle_outcome, bundle_plan, BundleProgress, FsAction};

fn fresh(p: &str) -> Vec<FsAction> {
    vec![
        FsAction::CreateDir(p.to_string()),
        FsAction::CreateDir(format!("{}/glyphs", p)),
        FsAction::WriteFile(format!("{}/glyphs/contents.plist", p), Template::Contents),
        FsAction::WriteFile(format!("{}/metainfo.plist", p), Template::Metainfo),
        FsAction::WriteFile(format!("{}/layercontents.plist", p), Template::LayerContents),
    ]
}

#[test]
fn fresh_path_plan() {
    assert_eq!(bundle_plan("P", false, false), fresh("P"));
    assert_eq!(bundle_plan("P", false, true), fresh("P"));
    assert_eq!(bundle_plan("out/foo.ufo", false, false), fresh("out/foo.ufo"));
}

#[test]
fn existing_bundle_moved_aside() {
    let mut expected = vec![FsAction::MoveAside("foo.ufo".to_string())];
    expected.extend(fresh("foo.ufo"));
    assert_eq!(bundle_plan("foo.ufo", true, false), expected);
}

#[test]
fn existing_bundle_deleted() {
    let mut expected = vec![FsAction::RemoveDirAll("foo.ufo".to_string())];
    expected.extend(fresh("foo.ufo"));
    assert_eq!(bundle_plan("foo.ufo", true, true), expected);
}

#[test]
fn existing_ufo3_and_bare_names() {
    assert_eq!(bundle_plan("dir/foo.ufo3", true, false)[0], FsAction::MoveAside("dir/foo.ufo3".to_string()));
    assert_eq!(bundle_plan("ufo", true, true)[0], FsAction::RemoveDirAll("ufo".to_string()));
    assert_eq!(bundle_plan("foo.ufo/", true, false)[0], FsAction::MoveAside("foo.ufo/".to_string()));
}

#[test]
fn other_directory_not_cleared() {
    assert_eq!(bundle_plan("foo.txt", true, true), fresh("foo.txt"));
    assert_eq!(bundle_plan("foo.UFO", true, false), fresh("foo.UFO"));
    assert_eq!(bundle_plan("foo.ufo/bar", true, false), fresh("foo.ufo/bar"));
}

#[test]
fn outcome_reports() {
    assert_eq!(bundle_outcome("P", false), InitResult::UfoOk("P".to_string()));
    assert_eq!(bundle_outcome("P", true), InitResult::InitErr(InitError::FailedUFO));
    assert_eq!(bundle_outcome("P", true).into_result(), Err(InitError::FailedUFO));
    assert_eq!(bundle_outcome("P", false).into_result(), Ok(()));
}

#[test]
fn template_files() {
    assert_eq!(Template::Metainfo.file_name(), "metainfo.plist");
    assert_eq!(Template::LayerContents.file_name(), "layercontents.plist");
    assert_eq!(Template::Contents.file_name(), "contents.plist");
    assert_eq!(Template::Metainfo.contents(), METAINFO_PLIST);
    assert_eq!(Template::LayerContents.contents(), LAYERCONTENTS_PLIST);
    assert_eq!(Template::Contents.contents(), CONTENTS_PLIST);
}

#[test]
fn template_text_exact() {
    assert_eq!(
        CONTENTS_PLIST,
        "<?xml version=\"1.0\" encoding=\"UTF-8\"?>\n<!DOCTYPE plist PUBLIC \"-//Apple//DTD PLIST 1.0//EN\" \"http://www.apple.com/DTDs/PropertyList-1.0.dtd\">\n<plist version=\"1.0\">\n<dict>\n</dict>\n</plist>"
    );
    assert!(METAINFO_PLIST.contains("\n    <key>creator</key>\n    <string>org.MFEK</string>\n"));
    assert!(METAINFO_PLIST.contains("<integer>3</integer>\n</dict>\n</plist>"));
    assert!(LAYERCONTENTS_PLIST.contains("\n\t<array>\n\t\t<string>public.default</string>\n\t\t<string>glyphs</string>\n\t</array>\n"));
    assert!(!METAINFO_PLIST.ends_with('\n'));
}

#[test]
fn run_stops_at_first_failure() {
    assert_eq!(bundle_next("P", 5, 0, true), BundleProgress::Perform(0));
    assert_eq!(bundle_next("P", 5, 3, true), BundleProgress::Perform(3));
    assert_eq!(
        bundle_next("P", 5, 2, false),
        BundleProgress::Done(InitResult::InitErr(InitError::FailedUFO))
    );
    assert_eq!(
        bundle_next("P", 5, 5, false),
        BundleProgress::Done(InitResult::InitErr(InitError::FailedUFO))
    );
    assert_eq!(bundle_next("P", 5, 5, true), BundleProgress::Done(InitResult::UfoOk("P".to_string())));
}
