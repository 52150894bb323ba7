use blink::models::{
    architecture_defaults, architecture_from_lowercase, check_lora_directory, custom_model_id,
    default_20, default_512, default_sampler, default_true, detect_architecture,
    download_error_message, file_extension, file_name, get_companion_files, is_custom_model_id,
    is_lora_file, model_paths_from_roles, parse_hf_url, plan_custom_import, resolve_model_files,
};

#[test]
fn catalogue_defaults() {
    assert!(default_true());
    assert_eq!(default_512(), 512);
    assert_eq!(default_20(), 20);
    assert_eq!(default_sampler(), "euler_a");
}

#[test]
fn hf_urls_parse() {
    assert_eq!(
        parse_hf_url("https://huggingface.co/owner/repo/blob/main/model.gguf"),
        Ok(("owner/repo".to_string(), "model.gguf".to_string()))
    );
    assert_eq!(
        parse_hf_url("https://huggingface.co/owner/repo/resolve/main/sub/dir/model.safetensors"),
        Ok(("owner/repo".to_string(), "sub/dir/model.safetensors".to_string()))
    );
    assert_eq!(
        parse_hf_url("https://huggingface.co/owner/repo/tree/main/model.gguf"),
        Err("Could not parse HuggingFace URL: https://huggingface.co/owner/repo/tree/main/model.gguf".to_string())
    );
    assert_eq!(
        parse_hf_url("https://huggingface.co/owner/repo"),
        Err("Could not parse HuggingFace URL: https://huggingface.co/owner/repo".to_string())
    );
    // The prefix is stripped as often as it repeats.
    assert_eq!(
        parse_hf_url("https://huggingface.co/https://huggingface.co/a/b/blob/main/f.gguf"),
        Ok(("a/b".to_string(), "f.gguf".to_string()))
    );
}

#[test]
fn colon_references_parse() {
    assert_eq!(
        parse_hf_url("owner/repo:model.gguf"),
        Ok(("owner/repo".to_string(), "model.gguf".to_string()))
    );
    assert_eq!(
        parse_hf_url("owner/repo:dir:model.gguf"),
        Ok(("owner/repo".to_string(), "dir:model.gguf".to_string()))
    );
    let unrecognized = Err(
        "Unrecognized URL format. Use:\n  https://huggingface.co/owner/repo/blob/main/model.gguf\n  owner/repo:model.gguf"
            .to_string(),
    );
    assert_eq!(parse_hf_url(":model.gguf"), unrecognized);
    assert_eq!(parse_hf_url("owner/repo:"), unrecognized);
    assert_eq!(parse_hf_url("no reference"), unrecognized);
}

#[test]
fn architecture_detection_prefers_specific_patterns() {
    assert_eq!(detect_architecture("Z_Image_Turbo-Q8_0.gguf", "x/y"), "z-image");
    assert_eq!(detect_architecture("model.gguf", "black-forest-labs/FLUX.1-Kontext-dev"), "flux-kontext");
    assert_eq!(detect_architecture("flux1-schnell.gguf", "x"), "flux");
    assert_eq!(detect_architecture("wan2.1.gguf", "x"), "wan");
    assert_eq!(detect_architecture("sd_xl_base.safetensors", "x"), "sdxl");
    assert_eq!(detect_architecture("SD3-medium.gguf", "x"), "sd3");
    assert_eq!(detect_architecture("v1-5.safetensors", "runwayml/stable-diffusion"), "sd1");
    assert_eq!(architecture_from_lowercase("a-z-image", ""), "z-image");
    // Case matters once the caller has lower-cased.
    assert_eq!(architecture_from_lowercase("FLUX", ""), "sd1");
}

#[test]
fn companion_files_per_architecture() {
    let flux = get_companion_files("flux");
    assert_eq!(flux.len(), 3);
    assert_eq!(flux[0].role, "clip_l");
    assert_eq!(flux[1].filename, "t5-v1_1-xxl-encoder-Q4_K_M.gguf");
    assert_eq!(flux[2].repo, "Comfy-Org/z_image_turbo");
    let z = get_companion_files("z-image");
    assert_eq!(z.len(), 2);
    assert_eq!(z[0].role, "llm");
    assert_eq!(z[0].size_bytes, 2_800_000_000);
    let wan = get_companion_files("wan");
    assert_eq!(wan[2].filename, "Wan2.1_VAE.pth");
    assert!(get_companion_files("sdxl").is_empty());
    assert_eq!(get_companion_files("flux-kontext").len(), 3);
}

#[test]
fn architecture_defaults_table() {
    let d = architecture_defaults("z-image");
    assert_eq!((d.width, d.height, d.steps, d.cfg_tenths, d.sampler.as_str()), (512, 1024, 4, 10, "euler"));
    let d = architecture_defaults("flux-kontext");
    assert_eq!((d.width, d.height, d.steps, d.cfg_tenths), (1024, 1024, 25, 35));
    let d = architecture_defaults("custom");
    assert_eq!((d.width, d.height, d.steps, d.cfg_tenths, d.sampler.as_str()), (512, 512, 20, 70, "euler_a"));
}

#[test]
fn custom_import_plans() {
    let p = plan_custom_import("https://huggingface.co/org/Z-Image-GGUF/blob/main/q/z-image-Q4.gguf", None).unwrap();
    assert_eq!(p.repo, "org/Z-Image-GGUF");
    assert_eq!(p.filename, "q/z-image-Q4.gguf");
    assert_eq!(p.safe_filename, "z-image-Q4.gguf");
    assert_eq!(p.display_name, "z-image-Q4");
    assert_eq!(p.architecture, "z-image");
    assert_eq!(p.companions.len(), 2);
    let p = plan_custom_import("me/sd:model.safetensors", Some("Mine".to_string())).unwrap();
    assert_eq!(p.display_name, "Mine");
    assert_eq!(p.architecture, "sd1");
    assert!(p.companions.is_empty());
    assert_eq!(
        plan_custom_import("me/sd:model.ckpt", None).err(),
        Some("Only .gguf and .safetensors files are supported".to_string())
    );
    assert!(plan_custom_import("nonsense", None).is_err());
    assert_eq!(custom_model_id(1700000000123), "custom-1700000000123");
    assert!(is_custom_model_id("custom-1"));
    assert!(!is_custom_model_id("sd15"));
}

#[test]
fn download_errors_ask_for_a_token_when_gated() {
    assert_eq!(
        download_error_message("flux-dev", "black-forest-labs/FLUX.1-dev", Some("diffusion_model"), "status 401"),
        "flux-dev: black-forest-labs/FLUX.1-dev needs authentication — set your HuggingFace token in Settings"
    );
    assert_eq!(
        download_error_message("m", "r", Some("vae"), "timeout"),
        "m: download failed for vae: timeout"
    );
    assert_eq!(download_error_message("m", "r", None, "repo is gated"), "m: r needs authentication — set your HuggingFace token in Settings");
    assert_eq!(download_error_message("m", "r", None, "boom"), "m: boom");
}

#[test]
fn lora_scanning_rules() {
    assert_eq!(check_lora_directory("C:/loras/../x"), Err("Invalid path".to_string()));
    assert!(check_lora_directory("/home/me/loras").is_ok());
    assert!(is_lora_file("/home/me/loras/style.SafeTensors"));
    assert!(is_lora_file("a/b.GGUF"));
    assert!(!is_lora_file("a/b.ckpt"));
    assert!(!is_lora_file("a/.gguf"));
    assert_eq!(file_extension("a/b.tar.gz"), Some("gz".to_string()));
    assert_eq!(file_extension("noext"), None);
    assert_eq!(file_name("a/b/c.txt"), "c.txt");
    assert_eq!(file_name("plain"), "plain");
}

#[test]
fn model_files_resolve_by_role() {
    let found = vec![
        ("diffusion_model".to_string(), "/m/z.gguf".to_string()),
        ("vae".to_string(), "/m/ae.safetensors".to_string()),
        ("llm".to_string(), "/m/q.gguf".to_string()),
    ];
    let p = model_paths_from_roles(&found);
    assert_eq!(p.diffusion_model_path.as_deref(), Some("/m/z.gguf"));
    assert_eq!(p.llm_path.as_deref(), Some("/m/q.gguf"));
    assert!(p.model_path.is_none() && p.clip_l_path.is_none());
    let required = vec!["diffusion_model".to_string(), "llm".to_string(), "clip_l".to_string()];
    assert_eq!(
        resolve_model_files("z-image", &required, &found).err(),
        Some("Required file 'clip_l' for model 'z-image' not found".to_string())
    );
    let required = vec!["diffusion_model".to_string(), "vae".to_string()];
    assert_eq!(
        resolve_model_files("z-image", &required, &found).unwrap().vae_path.as_deref(),
        Some("/m/ae.safetensors")
    );
}

#[test]
fn imported_ids_are_custom() {
    for ms in [0u64, 1725029869123, u64::MAX] {
        let id = blink::models::custom_model_id(ms);
        assert!(blink::models::is_custom_model_id(&id));
        assert!(blink::models::is_listed_custom(&id, "ready"));
    }
}

#[test]
fn custom_imports_are_listed_with_fallbacks() {
    let l = blink::models::custom_listing("custom-1", Some("My model".into()), Some("m.gguf".into()), Some("flux".into()));
    assert_eq!((l.name.as_str(), l.architecture.as_str()), ("My model", "flux"));
    assert_eq!((l.defaults.width, l.defaults.steps, l.defaults.cfg_tenths), (1024, 4, 10));
    let l = blink::models::custom_listing("custom-2", None, Some("m.gguf".into()), None);
    assert_eq!((l.name.as_str(), l.architecture.as_str()), ("m.gguf", "custom"));
    assert_eq!((l.defaults.width, l.defaults.height, l.defaults.sampler.as_str()), (512, 512, "euler_a"));
    let l = blink::models::custom_listing("custom-3", None, None, Some("sdxl".into()));
    assert_eq!(l.name, "custom-3");
    assert_eq!(l.defaults.steps, 25);
}

#[test]
fn catalogue_models_show_downloaded_only_while_on_disk() {
    assert!(blink::models::catalogue_downloaded(Some("ready"), true));
    assert!(!blink::models::catalogue_downloaded(Some("ready"), false));
    assert!(!blink::models::catalogue_downloaded(Some("partial"), true));
    assert!(!blink::models::catalogue_downloaded(None, true));
}
