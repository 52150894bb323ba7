use blink::download::{
    activation_paths, custom_record_path, failure_message, finish_download, import_file_start, put_status,
    ready_path, record_file, recorded_status, single_file_source, single_record_path, CatalogueEntry, FailedStep,
    FileOnDisk, FileOutcome, StoredModel,
};
use blink::models::{FileStatus, ModelFile};

fn fs(status: &str, path: &str) -> FileStatus {
    FileStatus { status: status.to_string(), path: path.to_string() }
}

fn file(role: &str, repo: &str, filename: &str, required: bool) -> ModelFile {
    ModelFile { role: role.into(), repo: repo.into(), filename: filename.into(), size_bytes: 1, required }
}

#[test]
fn statuses_replace_by_role() {
    let mut v: Vec<(String, FileStatus)> = Vec::new();
    put_status(&mut v, "vae", fs("failed", "flux/ae.safetensors"));
    put_status(&mut v, "clip_l", fs("ready", "flux/clip_l.safetensors"));
    put_status(&mut v, "vae", fs("ready", "flux/ae.safetensors"));
    assert_eq!(v.len(), 2);
    assert_eq!(recorded_status(&v, "vae").unwrap().status, "ready");
    assert!(recorded_status(&v, "t5xxl").is_none());
    assert_eq!(ready_path(&v, "clip_l").as_deref(), Some("flux/clip_l.safetensors"));
    put_status(&mut v, "clip_l", fs("failed", "flux/clip_l.safetensors"));
    assert_eq!(ready_path(&v, "clip_l"), None);
}

#[test]
fn a_failed_required_file_leaves_the_download_partial() {
    let mut v: Vec<(String, FileStatus)> = Vec::new();
    let mut ok = true;
    let vae = file("vae", "Comfy-Org/z_image_turbo", "split_files/vae/ae.safetensors", true);
    let llm = file("llm", "unsloth/q", "q.gguf", false);
    assert_eq!(record_file(&mut v, &mut ok, "z", "z-image", &vae, FileOutcome::Stored), None);
    assert_eq!(ready_path(&v, "vae").as_deref(), Some("z-image/ae.safetensors"));
    let e = record_file(&mut v, &mut ok, "z", "z-image", &llm, FileOutcome::CopyFailed("disk full".into()));
    assert_eq!(e.as_deref(), Some("z: copy failed for llm: disk full"));
    assert!(ok, "an optional file does not block readiness");
    assert_eq!(recorded_status(&v, "llm").unwrap().status, "failed");
    let e = record_file(&mut v, &mut ok, "z", "z-image", &vae, FileOutcome::FetchFailed("timeout".into()));
    assert_eq!(e.as_deref(), Some("z: download failed for vae: timeout"));
    assert!(!ok);
    let e = record_file(&mut v, &mut ok, "z", "z-image", &vae, FileOutcome::FetchFailed("HTTP 401".into()));
    assert_eq!(
        e.as_deref(),
        Some("z: Comfy-Org/z_image_turbo needs authentication — set your HuggingFace token in Settings")
    );
    assert_eq!(finish_download("z", ok), ("partial".to_string(), Some("z: some required files failed to download".to_string())));
    assert_eq!(finish_download("z", true), ("ready".to_string(), None));
}

#[test]
fn single_file_sources_and_paths() {
    assert_eq!(single_file_source("m", &None, &Some("f".into())).err(), Some("m: no repo specified".into()));
    assert_eq!(single_file_source("m", &Some("r".into()), &None).err(), Some("m: no filename specified".into()));
    assert_eq!(single_file_source("m", &Some("r".into()), &Some("f".into())).unwrap(), ("r".into(), "f".into()));
    assert_eq!(single_record_path("sdxl", "dir/model.safetensors"), "sdxl/dir/model.safetensors");
}

#[test]
fn import_messages_and_paths() {
    assert_eq!(import_file_start("custom-1", "vae", 3, 4), "custom-1: downloading vae (3/4)");
    assert_eq!(custom_record_path("custom-1", "x.gguf", true), "custom/custom-1/");
    assert_eq!(custom_record_path("custom-1", "x.gguf", false), "custom/x.gguf");
    assert_eq!(failure_message("m", None, FailedStep::Copy, "e"), "m: copy failed: e");
    assert_eq!(failure_message("m", Some("vae"), FailedStep::Copy, "e"), "m: copy failed for vae: e");
    assert_eq!(failure_message("m", None, FailedStep::Fetch, "e"), "m: e");
    assert_eq!(failure_message("m", Some("vae"), FailedStep::Fetch, "e"), "m: download failed for vae: e");
}

fn on_disk(role: &str, path: &str, exists: bool) -> FileOnDisk {
    FileOnDisk { role: role.into(), path: path.into(), exists }
}

#[test]
fn activation_resolves_by_kind() {
    assert_eq!(
        activation_paths("sd15", None, CatalogueEntry::SingleFile).err(),
        Some("Model 'sd15' not downloaded".to_string())
    );
    let single = StoredModel { path: "/m/sd1/a.safetensors".into(), exists: true, files: None };
    let p = activation_paths("sd15", Some(single.clone()), CatalogueEntry::SingleFile).unwrap();
    assert_eq!(p.model_path.as_deref(), Some("/m/sd1/a.safetensors"));
    assert!(p.vae_path.is_none() && p.diffusion_model_path.is_none());
    assert_eq!(
        activation_paths("sd15", Some(single.clone()), CatalogueEntry::Missing).err(),
        Some("Model 'sd15' not found in manifest".to_string())
    );
    let gone = StoredModel { exists: false, ..single.clone() };
    assert_eq!(
        activation_paths("sd15", Some(gone), CatalogueEntry::SingleFile).err(),
        Some("Model file not found: /m/sd1/a.safetensors".to_string())
    );
    // Custom imports need no catalogue entry, and their files are taken as recorded.
    let custom = StoredModel {
        path: "/m/custom/custom-7/".into(),
        exists: true,
        files: Some(vec![on_disk("diffusion_model", "/m/custom/custom-7/z.gguf", false), on_disk("vae", "/m/custom/custom-7/ae.safetensors", true)]),
    };
    let p = activation_paths("custom-7", Some(custom), CatalogueEntry::Missing).unwrap();
    assert_eq!(p.diffusion_model_path.as_deref(), Some("/m/custom/custom-7/z.gguf"));
    assert!(p.model_path.is_none());
    // Catalogued multi-file models use the files on disk, every required role present.
    let files = vec![
        file("diffusion_model", "r", "z.gguf", true),
        file("vae", "r", "ae.safetensors", true),
        file("llm", "r", "q.gguf", false),
    ];
    let stored = StoredModel {
        path: "/m/z-image/".into(),
        exists: true,
        files: Some(vec![on_disk("diffusion_model", "/m/z-image/z.gguf", true), on_disk("vae", "/m/z-image/ae.safetensors", false)]),
    };
    assert_eq!(
        activation_paths("z-image", Some(stored.clone()), CatalogueEntry::MultiFile(files.clone())).err(),
        Some("Required file 'vae' for model 'z-image' not found".to_string())
    );
    let mut present = stored.clone();
    present.files.as_mut().unwrap()[1].exists = true;
    let p = activation_paths("z-image", Some(present), CatalogueEntry::MultiFile(files.clone())).unwrap();
    assert_eq!(p.vae_path.as_deref(), Some("/m/z-image/ae.safetensors"));
    assert!(p.llm_path.is_none());
    let no_files = StoredModel { files: None, ..stored };
    assert_eq!(
        activation_paths("z-image", Some(no_files), CatalogueEntry::MultiFile(files)).err(),
        Some("Model 'z-image' has no file status in metadata".to_string())
    );
}

#[test]
fn download_progress_is_not_tracked() {
    assert!(blink::models::get_download_progress("sd15").unwrap().is_none());
    let e = blink::generation::VideoErrorEvent { message: "No frames generated".into() };
    assert_eq!(e.message, "No frames generated");
}

#[test]
fn imports_activate_without_a_catalogue_entry() {
    let id = blink::models::custom_model_id(1725029869123);
    let single = StoredModel { path: "/m/custom/x.gguf".into(), exists: true, files: None };
    let p = activation_paths(&id, Some(single), CatalogueEntry::Missing).unwrap();
    assert_eq!(p.model_path.as_deref(), Some("/m/custom/x.gguf"));
    let multi = StoredModel {
        path: "/m/custom/c/".into(),
        exists: false,
        files: Some(vec![on_disk("llm", "/m/custom/c/q.gguf", true)]),
    };
    let p = activation_paths(&id, Some(multi), CatalogueEntry::SingleFile).unwrap();
    assert_eq!(p.llm_path.as_deref(), Some("/m/custom/c/q.gguf"));
}
