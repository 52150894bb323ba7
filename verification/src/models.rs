//! The model catalogue's own logic: default values, custom-import URLs,
//! architecture detection and the companion files each architecture needs.
use vstd::prelude::*;
use crate::placement::{paths_view, ModelPaths, PathsView};
use crate::text::{
    chars_of, ends_with, has_sub, positions_in, positions_of, push_char, push_str, skip_repeated,
    starts_with, str_contains, str_ends_with, str_eq, strip_repeated, string_of_range,
};

verus! {

// ---------------------------------------------------------------------------
// Catalogue records
// ---------------------------------------------------------------------------

/// One file of a multi-file model.
#[derive(Debug, Clone)]
pub struct ModelFile {
    pub role: String,
    pub repo: String,
    pub filename: String,
    pub size_bytes: u64,
    pub required: bool,
}

/// A model's licence.
#[derive(Debug, Clone)]
pub struct ModelLicense {
    pub name: String,
    pub url: String,
    pub commercial: bool,
}

/// How far a download has come.
#[derive(Debug, Clone)]
pub struct DownloadProgress {
    pub model_id: String,
    pub downloaded_bytes: u64,
    pub total_bytes: u64,
    pub speed_bps: u64,
}

/// The state of one downloaded file, as stored in the metadata.
#[derive(Debug, Clone)]
pub struct FileStatus {
    pub status: String,
    pub path: String,
}

/// A LoRA file found on disk.
#[derive(Debug, Clone)]
pub struct LoraFileInfo {
    pub path: String,
    pub filename: String,
    pub size_bytes: u64,
}

/// Catalogue entries are available unless they say otherwise.
pub fn default_true() -> (b: bool)
    ensures
        b,
{
    true
}

/// The default width and height of a catalogue entry.
pub fn default_512() -> (v: u32)
    ensures
        v == 512,
{
    512
}

/// The default step count of a catalogue entry.
pub fn default_20() -> (v: u32)
    ensures
        v == 20,
{
    20
}

/// The default sampler of a catalogue entry.
pub fn default_sampler() -> (s: String)
    ensures
        s@ == "euler_a"@,
{
    String::from_str("euler_a")
}

/// Whether a model id names a custom import.
pub fn is_custom_model_id(id: &str) -> (b: bool)
    ensures
        b == starts_with(id@, "custom-"@),
{
    crate::text::str_starts_with(id, "custom-")
}

// ---------------------------------------------------------------------------
// HuggingFace URLs
// ---------------------------------------------------------------------------

/// The prefix of a HuggingFace file URL.
pub open spec fn hf_prefix() -> Seq<char> {
    "https://huggingface.co/"@
}

/// The `k`-th piece of `path` between the slashes at positions `q`.
pub open spec fn piece(path: Seq<char>, q: Seq<int>, k: int) -> Seq<char> {
    path.subrange(if k == 0 { 0 } else { q[k - 1] + 1 }, q[k])
}

/// The error for a HuggingFace URL that is not a file URL.
pub open spec fn bad_hf_url(url: Seq<char>) -> Seq<char> {
    "Could not parse HuggingFace URL: "@ + url
}

/// The error for an input that is neither form.
pub open spec fn unrecognized_url() -> Seq<char> {
    "Unrecognized URL format. Use:\n  https://huggingface.co/owner/repo/blob/main/model.gguf\n  owner/repo:model.gguf"@
}

/// The repository and file a custom-model reference names.
///
/// `https://huggingface.co/{owner}/{repo}/(blob|resolve)/{rev}/{file}` names
/// `owner/repo` and everything after the fourth slash of the path; any other
/// URL under that prefix is refused. Otherwise `{repo}:{file}` splits at the
/// first colon, and both parts must be non-empty.
pub open spec fn hf_reference(url: Seq<char>) -> Result<(Seq<char>, Seq<char>), Seq<char>> {
    if starts_with(url, hf_prefix()) {
        let path = strip_repeated(url, hf_prefix());
        let q = positions_of(path, '/');
        if q.len() >= 4 && (piece(path, q, 2) == "blob"@ || piece(path, q, 2) == "resolve"@) {
            Ok((piece(path, q, 0) + "/"@ + piece(path, q, 1), path.skip(q[3] + 1)))
        } else {
            Err(bad_hf_url(url))
        }
    } else {
        let c = positions_of(url, ':');
        if c.len() > 0 && c[0] > 0 && c[0] + 1 < url.len() {
            Ok((url.take(c[0]), url.skip(c[0] + 1)))
        } else {
            Err(unrecognized_url())
        }
    }
}

/// The view of a parse result.
pub open spec fn parsed_view(r: Result<(String, String), String>) -> Result<(Seq<char>, Seq<char>), Seq<char>> {
    match r {
        Ok((a, b)) => Ok((a@, b@)),
        Err(e) => Err(e@),
    }
}

/// Whether `v[a..b]` spells `w`.
fn range_is(v: &Vec<char>, a: usize, b: usize, w: &str) -> (r: bool)
    requires
        a <= b <= v@.len(),
    ensures
        r == (v@.subrange(a as int, b as int) == w@),
{
    let s = string_of_range(v, a, b);
    str_eq(s.as_str(), w)
}

/// Split a custom-model reference into repository and file name.
pub fn parse_hf_url(url: &str) -> (r: Result<(String, String), String>)
    ensures
        parsed_view(r) == hf_reference(url@),
{
    let v = chars_of(url);
    let prefix = chars_of("https://huggingface.co/");
    if crate::text::starts_with_seq(&v, &prefix) {
        let k = skip_repeated(&v, &prefix);
        let path = string_of_range(&v, k, v.len());
        let pv = chars_of(path.as_str());
        let q = positions_in(&pv, '/');
        if q.len() >= 4 {
            proof {
                crate::text::lemma_positions_of(pv@, '/');
                assert(0 <= q@[0] < q@[1] < q@[2] < q@[3] < pv@.len()) by {
                    assert(positions_of(pv@, '/')[0] < positions_of(pv@, '/')[1]);
                    assert(positions_of(pv@, '/')[1] < positions_of(pv@, '/')[2]);
                    assert(positions_of(pv@, '/')[2] < positions_of(pv@, '/')[3]);
                }
            }
            let third = range_is(&pv, q[1] + 1, q[2], "blob") || range_is(&pv, q[1] + 1, q[2], "resolve");
            if third {
                let mut repo = string_of_range(&pv, 0, q[0]);
                push_char(&mut repo, '/');
                let owner_repo = string_of_range(&pv, q[0] + 1, q[1]);
                push_str(&mut repo, owner_repo.as_str());
                let file = string_of_range(&pv, q[3] + 1, pv.len());
                proof {
                    reveal_strlit("/");
                    assert(repo@ =~= piece(pv@, positions_of(pv@, '/'), 0) + "/"@ + piece(pv@, positions_of(pv@, '/'), 1));
                }
                return Ok((repo, file));
            }
        }
        let mut e = String::from_str("Could not parse HuggingFace URL: ");
        push_str(&mut e, url);
        return Err(e);
    }
    let c = positions_in(&v, ':');
    proof {
        crate::text::lemma_positions_of(v@, ':');
    }
    if c.len() > 0 && c[0] > 0 && c[0] < v.len() - 1 {
        let repo = string_of_range(&v, 0, c[0]);
        let file = string_of_range(&v, c[0] + 1, v.len());
        return Ok((repo, file));
    }
    Err(
        String::from_str(
            "Unrecognized URL format. Use:\n  https://huggingface.co/owner/repo/blob/main/model.gguf\n  owner/repo:model.gguf",
        ),
    )
}


// ---------------------------------------------------------------------------
// Architectures
// ---------------------------------------------------------------------------

/// What `str::to_lowercase` returns for a string: its Unicode lowercase
/// mapping, a function of the string alone.
pub uninterp spec fn lowercase(s: Seq<char>) -> Seq<char>;

/// The Unicode lowercase form of `s` (`str::to_lowercase`). The contract
/// claims only that the result is the lowercase mapping of the argument;
/// what that mapping is character by character is left to Unicode.
#[verifier::external_body]
pub(crate) fn to_lowercase(s: &str) -> (r: String)
    ensures
        r@ == lowercase(s@),
{
    s.to_lowercase()
}

/// The architecture a lower-cased file name and repository point to; the
/// more specific patterns are tried first, and anything unrecognised is SD 1.x.
pub open spec fn architecture_for(f: Seq<char>, r: Seq<char>) -> Seq<char> {
    if has_sub(f, "z-image"@) || has_sub(f, "z_image"@) || has_sub(r, "z-image"@) || has_sub(r, "z_image"@) {
        "z-image"@
    } else if has_sub(f, "kontext"@) || has_sub(r, "kontext"@) {
        "flux-kontext"@
    } else if has_sub(f, "flux"@) || has_sub(r, "flux"@) {
        "flux"@
    } else if has_sub(f, "wan"@) || has_sub(r, "wan"@) {
        "wan"@
    } else if has_sub(f, "sdxl"@) || has_sub(f, "sd_xl"@) || has_sub(r, "sdxl"@) || has_sub(r, "sd_xl"@) {
        "sdxl"@
    } else if has_sub(f, "sd3"@) || has_sub(r, "sd3"@) {
        "sd3"@
    } else {
        "sd1"@
    }
}

/// The architecture named by an already lower-cased file name and repository.
pub fn architecture_from_lowercase(f: &str, r: &str) -> (a: String)
    ensures
        a@ == architecture_for(f@, r@),
{
    if str_contains(f, "z-image") || str_contains(f, "z_image") || str_contains(r, "z-image")
        || str_contains(r, "z_image") {
        String::from_str("z-image")
    } else if str_contains(f, "kontext") || str_contains(r, "kontext") {
        String::from_str("flux-kontext")
    } else if str_contains(f, "flux") || str_contains(r, "flux") {
        String::from_str("flux")
    } else if str_contains(f, "wan") || str_contains(r, "wan") {
        String::from_str("wan")
    } else if str_contains(f, "sdxl") || str_contains(f, "sd_xl") || str_contains(r, "sdxl")
        || str_contains(r, "sd_xl") {
        String::from_str("sdxl")
    } else if str_contains(f, "sd3") || str_contains(r, "sd3") {
        String::from_str("sd3")
    } else {
        String::from_str("sd1")
    }
}

/// The architecture a model file and repository point to, compared without
/// regard to case.
pub fn detect_architecture(filename: &str, repo: &str) -> (a: String)
    ensures
        a@ == architecture_for(lowercase(filename@), lowercase(repo@)),
{
    let f = to_lowercase(filename);
    let r = to_lowercase(repo);
    architecture_from_lowercase(f.as_str(), r.as_str())
}

/// A file that has to be downloaded next to an imported diffusion model.
#[derive(Debug, Clone)]
pub struct CompanionFile {
    pub role: String,
    pub repo: String,
    pub filename: String,
    pub size_bytes: u64,
}

/// The view of a companion file: role, repository, file name, size.
pub open spec fn companion_view(c: CompanionFile) -> (Seq<char>, Seq<char>, Seq<char>, u64) {
    (c.role@, c.repo@, c.filename@, c.size_bytes)
}

/// The CLIP-L text encoder shared by Flux and Wan.
pub open spec fn clip_l_companion() -> (Seq<char>, Seq<char>, Seq<char>, u64) {
    ("clip_l"@, "comfyanonymous/flux_text_encoders"@, "clip_l.safetensors"@, 300_000_000)
}

/// The T5-XXL text encoder shared by Flux and Wan.
pub open spec fn t5xxl_companion() -> (Seq<char>, Seq<char>, Seq<char>, u64) {
    ("t5xxl"@, "city96/t5-v1_1-xxl-encoder-gguf"@, "t5-v1_1-xxl-encoder-Q4_K_M.gguf"@, 2_500_000_000)
}

/// The VAE shared by Flux and Z-Image.
pub open spec fn ae_vae_companion() -> (Seq<char>, Seq<char>, Seq<char>, u64) {
    ("vae"@, "Comfy-Org/z_image_turbo"@, "split_files/vae/ae.safetensors"@, 200_000_000)
}

/// The files each architecture needs besides its diffusion model; the
/// single-file architectures need none.
pub open spec fn companions_for(arch: Seq<char>) -> Seq<(Seq<char>, Seq<char>, Seq<char>, u64)> {
    if arch == "flux"@ || arch == "flux-kontext"@ {
        seq![clip_l_companion(), t5xxl_companion(), ae_vae_companion()]
    } else if arch == "z-image"@ {
        seq![
            ("llm"@, "unsloth/Qwen3-4B-Instruct-2507-GGUF"@, "Qwen3-4B-Instruct-2507-Q4_K_M.gguf"@, 2_800_000_000u64),
            ae_vae_companion(),
        ]
    } else if arch == "wan"@ {
        seq![
            clip_l_companion(),
            t5xxl_companion(),
            ("vae"@, "Wan-AI/Wan2.1-T2V-1.3B"@, "Wan2.1_VAE.pth"@, 400_000_000u64),
        ]
    } else {
        Seq::empty()
    }
}

fn companion(role: &str, repo: &str, filename: &str, size_bytes: u64) -> (c: CompanionFile)
    ensures
        companion_view(c) == (role@, repo@, filename@, size_bytes),
{
    CompanionFile {
        role: String::from_str(role),
        repo: String::from_str(repo),
        filename: String::from_str(filename),
        size_bytes,
    }
}

/// The companion files an architecture needs, in download order.
pub fn get_companion_files(architecture: &str) -> (v: Vec<CompanionFile>)
    ensures
        v@.len() == companions_for(architecture@).len(),
        forall|i: int| 0 <= i < v@.len() ==> companion_view(#[trigger] v@[i]) == companions_for(architecture@)[i],
{
    let mut v: Vec<CompanionFile> = Vec::new();
    if str_eq(architecture, "flux") || str_eq(architecture, "flux-kontext") {
        v.push(companion("clip_l", "comfyanonymous/flux_text_encoders", "clip_l.safetensors", 300_000_000));
        v.push(companion("t5xxl", "city96/t5-v1_1-xxl-encoder-gguf", "t5-v1_1-xxl-encoder-Q4_K_M.gguf", 2_500_000_000));
        v.push(companion("vae", "Comfy-Org/z_image_turbo", "split_files/vae/ae.safetensors", 200_000_000));
    } else if str_eq(architecture, "z-image") {
        v.push(companion("llm", "unsloth/Qwen3-4B-Instruct-2507-GGUF", "Qwen3-4B-Instruct-2507-Q4_K_M.gguf", 2_800_000_000));
        v.push(companion("vae", "Comfy-Org/z_image_turbo", "split_files/vae/ae.safetensors", 200_000_000));
    } else if str_eq(architecture, "wan") {
        v.push(companion("clip_l", "comfyanonymous/flux_text_encoders", "clip_l.safetensors", 300_000_000));
        v.push(companion("t5xxl", "city96/t5-v1_1-xxl-encoder-gguf", "t5-v1_1-xxl-encoder-Q4_K_M.gguf", 2_500_000_000));
        v.push(companion("vae", "Wan-AI/Wan2.1-T2V-1.3B", "Wan2.1_VAE.pth", 400_000_000));
    }
    v
}

/// The generation defaults a custom model of an architecture starts with.
/// `cfg_tenths` is the CFG scale in tenths (70 stands for 7.0).
#[derive(Debug, Clone)]
pub struct ArchitectureDefaults {
    pub width: u32,
    pub height: u32,
    pub steps: u32,
    pub cfg_tenths: u32,
    pub sampler: String,
}

/// The defaults of each architecture: width, height, steps, CFG in tenths,
/// sampler; anything unknown gets the SD 1.x defaults.
pub open spec fn defaults_for(arch: Seq<char>) -> (u32, u32, u32, u32, Seq<char>) {
    if arch == "flux"@ {
        (1024, 1024, 4, 10, "euler"@)
    } else if arch == "flux-kontext"@ {
        (1024, 1024, 25, 35, "euler"@)
    } else if arch == "z-image"@ {
        (512, 1024, 4, 10, "euler"@)
    } else if arch == "wan"@ {
        (832, 480, 30, 60, "euler"@)
    } else if arch == "sdxl"@ {
        (1024, 1024, 25, 70, "euler_a"@)
    } else {
        (512, 512, 20, 70, "euler_a"@)
    }
}

fn arch_defaults(width: u32, height: u32, steps: u32, cfg_tenths: u32, sampler: &str) -> (d: ArchitectureDefaults)
    ensures
        (d.width, d.height, d.steps, d.cfg_tenths, d.sampler@) == (width, height, steps, cfg_tenths, sampler@),
{
    ArchitectureDefaults { width, height, steps, cfg_tenths, sampler: String::from_str(sampler) }
}

/// The generation defaults of an architecture.
pub fn architecture_defaults(arch: &str) -> (d: ArchitectureDefaults)
    ensures
        (d.width, d.height, d.steps, d.cfg_tenths, d.sampler@) == defaults_for(arch@),
{
    if str_eq(arch, "flux") {
        arch_defaults(1024, 1024, 4, 10, "euler")
    } else if str_eq(arch, "flux-kontext") {
        arch_defaults(1024, 1024, 25, 35, "euler")
    } else if str_eq(arch, "z-image") {
        arch_defaults(512, 1024, 4, 10, "euler")
    } else if str_eq(arch, "wan") {
        arch_defaults(832, 480, 30, 60, "euler")
    } else if str_eq(arch, "sdxl") {
        arch_defaults(1024, 1024, 25, 70, "euler_a")
    } else {
        arch_defaults(512, 512, 20, 70, "euler_a")
    }
}


/// How a ready custom import is listed: its name, its architecture and the
/// generation defaults it starts with.
#[derive(Debug, Clone)]
pub struct CustomListing {
    pub name: String,
    pub architecture: String,
    pub defaults: ArchitectureDefaults,
}

/// List a ready custom import: named by its recorded name, else by the file
/// name of its recorded path, else by its id; of its recorded architecture,
/// else `custom`; with that architecture's defaults.
pub fn custom_listing(id: &str, name: Option<String>, path_file_name: Option<String>, architecture: Option<String>) -> (l:
    CustomListing)
    ensures
        l.name@ == match (opt_seq(name), opt_seq(path_file_name)) {
            (Some(n), _) => n,
            (None, Some(f)) => f,
            (None, None) => id@,
        },
        l.architecture@ == match opt_seq(architecture) {
            Some(a) => a,
            None => "custom"@,
        },
        (l.defaults.width, l.defaults.height, l.defaults.steps, l.defaults.cfg_tenths, l.defaults.sampler@)
            == defaults_for(l.architecture@),
{
    let shown = match name {
        Some(n) => n,
        None => match path_file_name {
            Some(f) => f,
            None => String::from_str(id),
        },
    };
    let arch = match architecture {
        Some(a) => a,
        None => String::from_str("custom"),
    };
    let defaults = architecture_defaults(arch.as_str());
    CustomListing { name: shown, architecture: arch, defaults }
}


// ---------------------------------------------------------------------------
// Custom imports
// ---------------------------------------------------------------------------

/// The last `/`-separated component of a path (the file name, with `/` as
/// the path separator).
pub open spec fn file_name_of(path: Seq<char>) -> Seq<char> {
    let q = positions_of(path, '/');
    if q.len() == 0 {
        path
    } else {
        path.skip(q.last() + 1)
    }
}

/// The last `/`-separated component of a path.
pub fn file_name(path: &str) -> (n: String)
    ensures
        n@ == file_name_of(path@),
{
    let v = chars_of(path);
    let q = positions_in(&v, '/');
    proof {
        crate::text::lemma_positions_of(v@, '/');
    }
    if q.len() == 0 {
        return string_of_range(&v, 0, v.len());
    }
    let last = q[q.len() - 1];
    string_of_range(&v, last + 1, v.len())
}

/// Whether a file is a format Blink can load.
pub open spec fn is_model_file(name: Seq<char>) -> bool {
    ends_with(name, ".gguf"@) || ends_with(name, ".safetensors"@)
}

/// The name shown for an imported model without a given name: the file name
/// without its `.gguf` or `.safetensors` suffix.
pub open spec fn display_name_of(file: Seq<char>) -> Seq<char> {
    if ends_with(file, ".gguf"@) {
        file.take(file.len() - ".gguf"@.len())
    } else if ends_with(file, ".safetensors"@) {
        file.take(file.len() - ".safetensors"@.len())
    } else {
        file
    }
}

/// Everything a custom import needs before its download starts.
#[derive(Debug, Clone)]
pub struct CustomImportPlan {
    pub repo: String,
    pub filename: String,
    /// The file name alone, with any directories removed.
    pub safe_filename: String,
    pub display_name: String,
    pub architecture: String,
    pub companions: Vec<CompanionFile>,
}

/// The error for a file in a format Blink cannot load.
pub open spec fn unsupported_format_message() -> Seq<char> {
    "Only .gguf and .safetensors files are supported"@
}

/// The view of an optional string.
pub open spec fn opt_seq(o: Option<String>) -> Option<Seq<char>> {
    match o {
        Some(s) => Some(s@),
        None => None,
    }
}

/// Check and plan a custom import from a reference and an optional display
/// name: the reference must parse, the file must be `.gguf` or
/// `.safetensors`; the architecture is detected from the file and repository
/// names and decides the companion files.
pub fn plan_custom_import(url: &str, name: Option<String>) -> (r: Result<CustomImportPlan, String>)
    ensures
        match hf_reference(url@) {
            Err(e) => r matches Err(m) && m@ == e,
            Ok((repo, file)) => if !is_model_file(file) {
                r matches Err(m) && m@ == unsupported_format_message()
            } else {
                r matches Ok(p) && {
                    &&& p.repo@ == repo
                    &&& p.filename@ == file
                    &&& p.safe_filename@ == file_name_of(file)
                    &&& p.display_name@ == match opt_seq(name) {
                        Some(n) => n,
                        None => display_name_of(file_name_of(file)),
                    }
                    &&& p.architecture@ == architecture_for(lowercase(file), lowercase(repo))
                    &&& p.companions@.len() == companions_for(p.architecture@).len()
                    &&& forall|i: int| 0 <= i < p.companions@.len() ==> companion_view(
                        #[trigger] p.companions@[i],
                    ) == companions_for(p.architecture@)[i]
                }
            },
        },
{
    let (repo, filename) = match parse_hf_url(url) {
        Ok(parts) => parts,
        Err(e) => return Err(e),
    };
    if !str_ends_with(filename.as_str(), ".gguf") && !str_ends_with(filename.as_str(), ".safetensors") {
        return Err(String::from_str("Only .gguf and .safetensors files are supported"));
    }
    let safe_filename = file_name(filename.as_str());
    let display_name = match name {
        Some(n) => n,
        None => strip_model_suffix(safe_filename.as_str()),
    };
    let architecture = detect_architecture(filename.as_str(), repo.as_str());
    let companions = get_companion_files(architecture.as_str());
    Ok(CustomImportPlan { repo, filename, safe_filename, display_name, architecture, companions })
}

/// `s` without a `.gguf` or `.safetensors` suffix.
fn strip_model_suffix(s: &str) -> (r: String)
    ensures
        r@ == display_name_of(s@),
{
    let v = chars_of(s);
    if str_ends_with(s, ".gguf") {
        let suffix = chars_of(".gguf");
        return string_of_range(&v, 0, v.len() - suffix.len());
    }
    if str_ends_with(s, ".safetensors") {
        let suffix = chars_of(".safetensors");
        return string_of_range(&v, 0, v.len() - suffix.len());
    }
    string_of_range(&v, 0, v.len())
}

/// The id of a custom import made at `millis` milliseconds since the epoch.
pub fn custom_model_id(millis: u64) -> (id: String)
    ensures
        id@ == "custom-"@ + crate::text::decimal(millis as nat),
{
    let mut id = String::from_str("custom-");
    crate::text::push_decimal(&mut id, millis);
    id
}

/// Whether a lower-cased name points to Z-Image.
pub open spec fn names_z_image(s: Seq<char>) -> bool {
    has_sub(s, "z-image"@) || has_sub(s, "z_image"@)
}

/// A name that says Flux makes the import a Flux model, whether the file name
/// or the repository says it: unless either points to Z-Image or to Kontext,
/// which are recognised first.
pub proof fn law_flux_from_file_or_repository(f: Seq<char>, r: Seq<char>)
    requires
        has_sub(f, "flux"@) || has_sub(r, "flux"@),
        !names_z_image(f),
        !names_z_image(r),
        !has_sub(f, "kontext"@),
        !has_sub(r, "kontext"@),
    ensures
        architecture_for(f, r) == "flux"@,
        architecture_for(r, f) == "flux"@,
{
}

/// The file name and the repository count alike: swapping them never changes
/// the architecture.
pub proof fn law_architecture_ignores_which_name_says_it(f: Seq<char>, r: Seq<char>)
    ensures
        architecture_for(f, r) == architecture_for(r, f),
{
}

/// A name that points to Z-Image always wins.
pub proof fn law_z_image_wins(f: Seq<char>, r: Seq<char>)
    requires
        names_z_image(f) || names_z_image(r),
    ensures
        architecture_for(f, r) == "z-image"@,
{
}

/// A name that says Kontext makes a Flux Kontext model unless a name points
/// to Z-Image.
pub proof fn law_kontext_beats_flux(f: Seq<char>, r: Seq<char>)
    requires
        has_sub(f, "kontext"@) || has_sub(r, "kontext"@),
        !names_z_image(f),
        !names_z_image(r),
    ensures
        architecture_for(f, r) == "flux-kontext"@,
{
}

/// Whether a lower-cased name says Z-Image, Kontext or Flux.
pub open spec fn names_flux_family(s: Seq<char>) -> bool {
    names_z_image(s) || has_sub(s, "kontext"@) || has_sub(s, "flux"@)
}

/// A name that says Wan makes a Wan model when neither name says a Flux or
/// Z-Image model.
pub proof fn law_wan_from_file_or_repository(f: Seq<char>, r: Seq<char>)
    requires
        has_sub(f, "wan"@) || has_sub(r, "wan"@),
        !names_flux_family(f),
        !names_flux_family(r),
    ensures
        architecture_for(f, r) == "wan"@,
{
}

/// A name that says SDXL (`sdxl` or `sd_xl`) makes an SDXL model when
/// neither name says Wan or a Flux or Z-Image model.
pub proof fn law_sdxl_from_file_or_repository(f: Seq<char>, r: Seq<char>)
    requires
        has_sub(f, "sdxl"@) || has_sub(f, "sd_xl"@) || has_sub(r, "sdxl"@) || has_sub(r, "sd_xl"@),
        !names_flux_family(f),
        !names_flux_family(r),
        !has_sub(f, "wan"@),
        !has_sub(r, "wan"@),
    ensures
        architecture_for(f, r) == "sdxl"@,
{
}

/// Names that say none of the known architectures make an SD 1.x model.
pub proof fn law_unmarked_names_are_sd1(f: Seq<char>, r: Seq<char>)
    requires
        !names_flux_family(f),
        !names_flux_family(r),
        !has_sub(f, "wan"@) && !has_sub(r, "wan"@),
        !has_sub(f, "sdxl"@) && !has_sub(f, "sd_xl"@) && !has_sub(r, "sdxl"@) && !has_sub(r, "sd_xl"@),
        !has_sub(f, "sd3"@) && !has_sub(r, "sd3"@),
    ensures
        architecture_for(f, r) == "sd1"@,
{
}

/// Only Flux, Flux Kontext and SDXL models default to 1024 × 1024; every
/// other architecture starts smaller.
pub proof fn law_large_default_size(arch: Seq<char>)
    ensures
        (defaults_for(arch).0 == 1024 && defaults_for(arch).1 == 1024) <==> (arch == "flux"@ || arch
            == "flux-kontext"@ || arch == "sdxl"@),
{
    lemma_architecture_names_differ();
}

/// The flow models (Flux, Flux Kontext, Z-Image, Wan) sample with Euler, the
/// rest with Euler ancestral.
pub proof fn law_default_sampler(arch: Seq<char>)
    ensures
        defaults_for(arch).4 == "euler"@ <==> (arch == "flux"@ || arch == "flux-kontext"@ || arch == "z-image"@
            || arch == "wan"@),
        defaults_for(arch).4 != "euler"@ ==> defaults_for(arch).4 == "euler_a"@,
{
    lemma_architecture_names_differ();
    reveal_strlit("euler");
    reveal_strlit("euler_a");
    assert("euler"@ != "euler_a"@) by {
        assert("euler"@.len() != "euler_a"@.len());
    }
}

/// The Stable Diffusion family (SD 1.x, SDXL and anything unknown) keeps a
/// CFG scale of 7; the flow models use their own.
pub proof fn law_default_cfg(arch: Seq<char>)
    ensures
        defaults_for(arch).3 == 70 <==> !(arch == "flux"@ || arch == "flux-kontext"@ || arch == "z-image"@ || arch
            == "wan"@),
{
    lemma_architecture_names_differ();
}

/// The distilled models (Flux Schnell and Z-Image Turbo) take four steps.
pub proof fn law_default_steps(arch: Seq<char>)
    ensures
        defaults_for(arch).2 == 4 <==> (arch == "flux"@ || arch == "z-image"@),
{
    lemma_architecture_names_differ();
}

/// An architecture the table does not know gets what SD 1.x gets.
pub proof fn law_unknown_architecture_is_sd1(arch: Seq<char>)
    requires
        arch != "flux"@,
        arch != "flux-kontext"@,
        arch != "z-image"@,
        arch != "wan"@,
        arch != "sdxl"@,
    ensures
        defaults_for(arch) == defaults_for("sd1"@),
{
    lemma_architecture_names_differ();
}

proof fn lemma_architecture_names_differ()
    ensures
        "flux"@ != "flux-kontext"@,
        "flux"@ != "z-image"@,
        "flux"@ != "wan"@,
        "flux"@ != "sdxl"@,
        "flux"@ != "sd1"@,
        "flux-kontext"@ != "z-image"@,
        "flux-kontext"@ != "wan"@,
        "flux-kontext"@ != "sdxl"@,
        "flux-kontext"@ != "sd1"@,
        "z-image"@ != "wan"@,
        "z-image"@ != "sdxl"@,
        "z-image"@ != "sd1"@,
        "wan"@ != "sdxl"@,
        "wan"@ != "sd1"@,
        "sdxl"@ != "sd1"@,
{
    reveal_strlit("flux");
    reveal_strlit("flux-kontext");
    reveal_strlit("z-image");
    reveal_strlit("wan");
    reveal_strlit("sdxl");
    reveal_strlit("sd1");
    assert("flux"@[1] != "flux-kontext"@[1] || "flux"@.len() != "flux-kontext"@.len());
    assert("flux"@[0] != "z-image"@[0]);
    assert("flux"@[0] != "wan"@[0]);
    assert("flux"@[0] != "sdxl"@[0]);
    assert("flux"@[0] != "sd1"@[0]);
    assert("flux-kontext"@[0] != "z-image"@[0]);
    assert("flux-kontext"@[0] != "wan"@[0]);
    assert("flux-kontext"@[0] != "sdxl"@[0]);
    assert("flux-kontext"@[0] != "sd1"@[0]);
    assert("z-image"@[0] != "wan"@[0]);
    assert("z-image"@[0] != "sdxl"@[0]);
    assert("z-image"@[0] != "sd1"@[0]);
    assert("wan"@[0] != "sdxl"@[0]);
    assert("wan"@[0] != "sd1"@[0]);
    assert("sdxl"@[2] != "sd1"@[2]);
}

/// With no name given, an import is shown by its file name without the
/// model suffix: `{n}.safetensors` and `{n}.gguf` are both shown as `n`.
pub proof fn law_display_name_drops_the_suffix(n: Seq<char>)
    ensures
        display_name_of(n + ".safetensors"@) == n,
        display_name_of(n + ".gguf"@) == n,
{
    reveal_strlit(".safetensors");
    reveal_strlit(".gguf");
    let s = n + ".safetensors"@;
    let g = n + ".gguf"@;
    assert(s.subrange(s.len() - ".safetensors"@.len(), s.len() as int) =~= ".safetensors"@);
    assert(!ends_with(s, ".gguf"@)) by {
        assert(s.last() == 's');
        if ends_with(s, ".gguf"@) {
            assert(s.subrange(s.len() - 5, s.len() as int)[4] == s.last());
        }
    }
    assert(s.take(n.len() as int) =~= n);
    assert(g.subrange(g.len() - ".gguf"@.len(), g.len() as int) =~= ".gguf"@);
    assert(g.take(n.len() as int) =~= n);
}

proof fn lemma_path_for_role_first(found: Seq<(Seq<char>, Seq<char>)>, i: int)
    requires
        0 <= i < found.len(),
        forall|j: int| 0 <= j < i ==> (#[trigger] found[j]).0 != found[i].0,
    ensures
        path_for_role(found, found[i].0) == Some(found[i].1),
    decreases i,
{
    if i > 0 {
        let rest = found.drop_first();
        assert forall|j: int| 0 <= j < i - 1 implies (#[trigger] rest[j]).0 != rest[i - 1].0 by {
            assert(rest[j] == found[j + 1]);
        }
        assert(rest[i - 1] == found[i]);
        lemma_path_for_role_first(rest, i - 1);
        assert(found[0].0 != found[i].0);
    }
}

proof fn lemma_path_for_role_absent(found: Seq<(Seq<char>, Seq<char>)>, role: Seq<char>)
    requires
        forall|j: int| 0 <= j < found.len() ==> (#[trigger] found[j]).0 != role,
    ensures
        path_for_role(found, role) is None,
    decreases found.len(),
{
    if found.len() > 0 {
        let rest = found.drop_first();
        assert forall|j: int| 0 <= j < rest.len() implies (#[trigger] rest[j]).0 != role by {
            assert(rest[j] == found[j + 1]);
        }
        assert(found[0].0 != role);
        lemma_path_for_role_absent(rest, role);
    }
}

/// A multi-file model starts from the first recorded file of each role: its
/// diffusion model, CLIP-L and T5-XXL encoders, VAE and LLM are each the path
/// of the first (role, path) pair with that role.
pub proof fn law_roles_take_their_first_file(found: Seq<(Seq<char>, Seq<char>)>, i: int)
    requires
        0 <= i < found.len(),
        forall|j: int| 0 <= j < i ==> (#[trigger] found[j]).0 != found[i].0,
    ensures
        found[i].0 == "diffusion_model"@ ==> paths_of_roles(found).diffusion_model == Some(found[i].1),
        found[i].0 == "clip_l"@ ==> paths_of_roles(found).clip_l == Some(found[i].1),
        found[i].0 == "t5xxl"@ ==> paths_of_roles(found).t5xxl == Some(found[i].1),
        found[i].0 == "vae"@ ==> paths_of_roles(found).vae == Some(found[i].1),
        found[i].0 == "llm"@ ==> paths_of_roles(found).llm == Some(found[i].1),
{
    lemma_path_for_role_first(found, i);
}

/// A role without a recorded file gives no path, and a multi-file model has
/// no single checkpoint, ControlNet or TAESD.
pub proof fn law_missing_roles_have_no_file(found: Seq<(Seq<char>, Seq<char>)>, role: Seq<char>)
    requires
        forall|j: int| 0 <= j < found.len() ==> (#[trigger] found[j]).0 != role,
    ensures
        role == "diffusion_model"@ ==> paths_of_roles(found).diffusion_model is None,
        role == "clip_l"@ ==> paths_of_roles(found).clip_l is None,
        role == "t5xxl"@ ==> paths_of_roles(found).t5xxl is None,
        role == "vae"@ ==> paths_of_roles(found).vae is None,
        role == "llm"@ ==> paths_of_roles(found).llm is None,
        paths_of_roles(found).model is None,
        paths_of_roles(found).control_net is None,
        paths_of_roles(found).taesd is None,
{
    lemma_path_for_role_absent(found, role);
}

/// Every id a custom import is given names a custom import, so the model
/// list shows the import among the custom models once it is ready, and
/// activating it needs no catalogue entry.
pub proof fn law_imported_ids_are_custom(millis: u64)
    ensures
        starts_with("custom-"@ + crate::text::decimal(millis as nat), "custom-"@),
{
    let p = "custom-"@;
    assert(("custom-"@ + crate::text::decimal(millis as nat)).subrange(0, p.len() as int) =~= p);
}

/// Whether a download error means the repository needs a token.
pub open spec fn is_auth_error(e: Seq<char>) -> bool {
    has_sub(e, "401"@) || has_sub(e, "403"@) || has_sub(e, "gated"@)
}

/// The message shown when a download fails: authentication failures ask for
/// a HuggingFace token; otherwise the error is shown, after the file's role
/// when the model has several files.
pub open spec fn download_error_text(model_id: Seq<char>, repo: Seq<char>, role: Option<Seq<char>>, e: Seq<char>) -> Seq<char> {
    if is_auth_error(e) {
        model_id + ": "@ + repo + " needs authentication — set your HuggingFace token in Settings"@
    } else {
        match role {
            Some(r) => model_id + ": download failed for "@ + r + ": "@ + e,
            None => model_id + ": "@ + e,
        }
    }
}

/// The message shown when downloading a file of `model_id` from `repo` fails
/// with `err`.
pub fn download_error_message(model_id: &str, repo: &str, role: Option<&str>, err: &str) -> (m: String)
    ensures
        m@ == download_error_text(model_id@, repo@, match role {
            Some(r) => Some(r@),
            None => None,
        }, err@),
{
    let mut m = String::from_str(model_id);
    if str_contains(err, "401") || str_contains(err, "403") || str_contains(err, "gated") {
        push_str(&mut m, ": ");
        push_str(&mut m, repo);
        push_str(&mut m, " needs authentication — set your HuggingFace token in Settings");
        return m;
    }
    match role {
        Some(r) => {
            push_str(&mut m, ": download failed for ");
            push_str(&mut m, r);
            push_str(&mut m, ": ");
            push_str(&mut m, err);
        },
        None => {
            push_str(&mut m, ": ");
            push_str(&mut m, err);
        },
    }
    m
}

// ---------------------------------------------------------------------------
// LoRA files
// ---------------------------------------------------------------------------

/// A LoRA directory is refused when its path holds `..`.
pub fn check_lora_directory(path: &str) -> (r: Result<(), String>)
    ensures
        has_sub(path@, ".."@) ==> (r matches Err(m) && m@ == "Invalid path"@),
        !has_sub(path@, ".."@) ==> r is Ok,
{
    if str_contains(path, "..") {
        return Err(String::from_str("Invalid path"));
    }
    Ok(())
}

/// The extension of a file name: the text after its last dot, when that dot
/// is not the name's first character (`Path::extension`).
pub open spec fn extension_of(name: Seq<char>) -> Option<Seq<char>> {
    let d = positions_of(name, '.');
    if d.len() > 0 && d.last() > 0 {
        Some(name.skip(d.last() + 1))
    } else {
        None
    }
}

/// The extension of the file a path names.
pub fn file_extension(path: &str) -> (e: Option<String>)
    ensures
        opt_seq(e) == extension_of(file_name_of(path@)),
{
    let name = file_name(path);
    let v = chars_of(name.as_str());
    let d = positions_in(&v, '.');
    proof {
        crate::text::lemma_positions_of(v@, '.');
    }
    if d.len() > 0 && d[d.len() - 1] > 0 {
        let last = d[d.len() - 1];
        assert(0 <= positions_of(v@, '.')[d@.len() - 1] < v@.len());
        return Some(string_of_range(&v, last + 1, v.len()));
    }
    None
}

/// Whether a lower-cased extension is a LoRA format.
pub open spec fn is_lora_extension(ext: Seq<char>) -> bool {
    ext == "safetensors"@ || ext == "gguf"@
}

/// Whether a path names a LoRA file: its extension, lower-cased, is
/// `safetensors` or `gguf`.
pub fn is_lora_file(path: &str) -> (b: bool)
    ensures
        b == match extension_of(file_name_of(path@)) {
            Some(ext) => is_lora_extension(lowercase(ext)),
            None => false,
        },
{
    match file_extension(path) {
        Some(ext) => {
            let lower = to_lowercase(ext.as_str());
            str_eq(lower.as_str(), "safetensors") || str_eq(lower.as_str(), "gguf")
        },
        None => false,
    }
}


// ---------------------------------------------------------------------------
// Resolving a model's files
// ---------------------------------------------------------------------------

/// The path stored for `role` in a list of (role, path) pairs: the first
/// pair with that role.
pub open spec fn path_for_role(found: Seq<(Seq<char>, Seq<char>)>, role: Seq<char>) -> Option<Seq<char>>
    decreases found.len(),
{
    if found.len() == 0 {
        None
    } else if found[0].0 == role {
        Some(found[0].1)
    } else {
        path_for_role(found.drop_first(), role)
    }
}

/// The view of a list of (role, path) pairs.
pub open spec fn pairs_view(v: Seq<(String, String)>) -> Seq<(Seq<char>, Seq<char>)> {
    v.map_values(|p: (String, String)| (p.0@, p.1@))
}

/// The path stored for `role`, if any.
pub fn find_role_path(found: &Vec<(String, String)>, role: &str) -> (p: Option<String>)
    ensures
        opt_seq(p) == path_for_role(pairs_view(found@), role@),
{
    let ghost pv = pairs_view(found@);
    let mut i: usize = 0;
    assert(pv.skip(0) =~= pv);
    while i < found.len()
        invariant
            i <= found@.len(),
            pv == pairs_view(found@),
            path_for_role(pv, role@) == path_for_role(pv.skip(i as int), role@),
        decreases found.len() - i,
    {
        let ghost rest = pv.skip(i as int);
        assert(rest.drop_first() =~= pv.skip(i + 1));
        assert(rest[0] == (found@[i as int].0@, found@[i as int].1@));
        if str_eq(found[i].0.as_str(), role) {
            return Some(found[i].1.clone());
        }
        i = i + 1;
    }
    assert(pv.skip(i as int).len() == 0);
    None
}

/// The files of a multi-file model found by role: the diffusion model, the
/// text encoders and the VAE; a multi-file model has no single checkpoint.
pub open spec fn paths_of_roles(found: Seq<(Seq<char>, Seq<char>)>) -> PathsView {
    PathsView {
        model: None,
        vae: path_for_role(found, "vae"@),
        clip_l: path_for_role(found, "clip_l"@),
        t5xxl: path_for_role(found, "t5xxl"@),
        diffusion_model: path_for_role(found, "diffusion_model"@),
        llm: path_for_role(found, "llm"@),
        control_net: None,
        taesd: None,
    }
}

/// The files of a multi-file model, by role.
pub fn model_paths_from_roles(found: &Vec<(String, String)>) -> (p: ModelPaths)
    ensures
        paths_view(p) == paths_of_roles(pairs_view(found@)),
{
    ModelPaths {
        model_path: None,
        diffusion_model_path: find_role_path(found, "diffusion_model"),
        clip_l_path: find_role_path(found, "clip_l"),
        t5xxl_path: find_role_path(found, "t5xxl"),
        vae_path: find_role_path(found, "vae"),
        llm_path: find_role_path(found, "llm"),
        control_net_path: None,
        taesd_path: None,
    }
}

/// The error for a required file that is not on disk.
pub open spec fn missing_file_message(role: Seq<char>, model_id: Seq<char>) -> Seq<char> {
    "Required file '"@ + role + "' for model '"@ + model_id + "' not found"@
}

/// The first required role without a file, if any.
pub open spec fn first_missing_role(required: Seq<Seq<char>>, found: Seq<(Seq<char>, Seq<char>)>) -> Option<Seq<char>>
    decreases required.len(),
{
    if required.len() == 0 {
        None
    } else if path_for_role(found, required[0]) is None {
        Some(required[0])
    } else {
        first_missing_role(required.drop_first(), found)
    }
}

/// The files of a catalogued multi-file model, or the error for the first
/// required role without a file.
pub open spec fn resolution(model_id: Seq<char>, required: Seq<Seq<char>>, found: Seq<(Seq<char>, Seq<char>)>) -> Result<PathsView, Seq<char>> {
    match first_missing_role(required, found) {
        Some(role) => Err(missing_file_message(role, model_id)),
        None => Ok(paths_of_roles(found)),
    }
}

/// The view of a paths-or-message result.
pub open spec fn paths_result(r: Result<ModelPaths, String>) -> Result<PathsView, Seq<char>> {
    match r {
        Ok(p) => Ok(paths_view(p)),
        Err(e) => Err(e@),
    }
}

/// Texts as plain values.
pub open spec fn texts_view(v: Seq<String>) -> Seq<Seq<char>> {
    v.map_values(|s: String| s@)
}

proof fn lemma_first_missing_skip(required: Seq<Seq<char>>, found: Seq<(Seq<char>, Seq<char>)>, i: int)
    requires
        0 <= i <= required.len(),
        forall|j: int| 0 <= j < i ==> path_for_role(found, #[trigger] required[j]) is Some,
    ensures
        first_missing_role(required, found) == first_missing_role(required.skip(i), found),
    decreases i,
{
    if i > 0 {
        let rest = required.drop_first();
        assert forall|j: int| 0 <= j < i - 1 implies path_for_role(found, #[trigger] rest[j]) is Some by {
            assert(rest[j] == required[j + 1]);
        }
        lemma_first_missing_skip(rest, found, i - 1);
        assert(rest.skip(i - 1) =~= required.skip(i));
        assert(path_for_role(found, required[0]) is Some);
    } else {
        assert(required.skip(0) =~= required);
    }
}

/// Resolve the files of a catalogued multi-file model: every required role
/// must have a file on disk (`found` lists the roles whose files exist), and
/// the first one missing is reported.
pub fn resolve_model_files(model_id: &str, required_roles: &Vec<String>, found: &Vec<(String, String)>) -> (r:
    Result<ModelPaths, String>)
    ensures
        paths_result(r) == resolution(model_id@, texts_view(required_roles@), pairs_view(found@)),
{
    let ghost req = texts_view(required_roles@);
    let mut i: usize = 0;
    while i < required_roles.len()
        invariant
            i <= required_roles@.len(),
            req == texts_view(required_roles@),
            forall|j: int| 0 <= j < i ==> path_for_role(pairs_view(found@), #[trigger] req[j]) is Some,
        decreases required_roles.len() - i,
    {
        if find_role_path(found, required_roles[i].as_str()).is_none() {
            proof {
                lemma_first_missing_skip(req, pairs_view(found@), i as int);
                assert(req.skip(i as int)[0] == req[i as int]);
            }
            let mut m = String::from_str("Required file '");
            push_str(&mut m, required_roles[i].as_str());
            push_str(&mut m, "' for model '");
            push_str(&mut m, model_id);
            push_str(&mut m, "' not found");
            return Err(m);
        }
        i = i + 1;
    }
    proof {
        lemma_first_missing_skip(req, pairs_view(found@), i as int);
    }
    Ok(model_paths_from_roles(found))
}



/// The positions of `/` after appending a piece without slashes and then a
/// slash.
proof fn lemma_slash_step(a: Seq<char>, piece: Seq<char>)
    requires
        !piece.contains('/'),
    ensures
        positions_of(a + piece + "/"@, '/') == positions_of(a, '/').push((a.len() + piece.len()) as int),
{
    reveal_strlit("/");
    assert("/"@ =~= seq!['/']);
    crate::text::lemma_positions_absent(piece, '/');
    crate::text::lemma_positions_concat(a, piece, '/');
    assert(positions_of(piece, '/').map_values(|x: int| x + a.len()) =~= Seq::<int>::empty());
    assert(positions_of(a + piece, '/') =~= positions_of(a, '/'));
    crate::text::lemma_positions_single('/');
    crate::text::lemma_positions_concat(a + piece, "/"@, '/');
    assert(positions_of("/"@, '/').map_values(|x: int| x + (a + piece).len()) =~= seq![(a.len() + piece.len()) as int]);
}

/// A file URL in the documented form names the repository and the file it
/// spells out: `https://huggingface.co/{owner}/{repo}/(blob|resolve)/{rev}/{file}`
/// gives `owner/repo` and `file`, whatever `file` holds, when the owner,
/// repository and revision hold no slash and the owner no colon.
#[verifier::spinoff_prover]
#[verifier::rlimit(40)]
pub proof fn law_hf_file_url_parses(owner: Seq<char>, repo: Seq<char>, kind: Seq<char>, rev: Seq<char>, file: Seq<char>)
    requires
        !owner.contains('/'),
        !owner.contains(':'),
        !repo.contains('/'),
        !rev.contains('/'),
        kind == "blob"@ || kind == "resolve"@,
    ensures
        hf_reference(hf_prefix() + owner + "/"@ + repo + "/"@ + kind + "/"@ + rev + "/"@ + file)
            == Ok::<(Seq<char>, Seq<char>), Seq<char>>((owner + "/"@ + repo, file)),
{
    reveal_strlit("/");
    reveal_strlit("blob");
    reveal_strlit("resolve");
    reveal_strlit("https://huggingface.co/");
    let pre = hf_prefix();
    assert(pre.len() == 23);
    assert(!kind.contains('/')) by {
        if kind.contains('/') {
            let k = choose|k: int| 0 <= k < kind.len() && kind[k] == '/';
            if kind == "blob"@ {
                assert(kind =~= seq!['b', 'l', 'o', 'b']);
            } else {
                assert(kind =~= seq!['r', 'e', 's', 'o', 'l', 'v', 'e']);
            }
        }
    }
    let a1 = owner + "/"@;
    let a2 = a1 + repo + "/"@;
    let a3 = a2 + kind + "/"@;
    let a4 = a3 + rev + "/"@;
    let path = a4 + file;
    let url = hf_prefix() + owner + "/"@ + repo + "/"@ + kind + "/"@ + rev + "/"@ + file;
    assert(url =~= pre + path);
    // The prefix is there once, and the path does not start with it again.
    assert(url.subrange(0, 23) =~= pre);
    assert(url.skip(23) =~= path);
    assert(!starts_with(path, pre)) by {
        if starts_with(path, pre) {
            if owner.len() >= 6 {
                assert(path[5] == owner[5]);
                assert(path.subrange(0, 23)[5] == pre[5]);
            } else {
                assert(path[owner.len() as int] == '/');
                assert(path.subrange(0, 23)[owner.len() as int] == pre[owner.len() as int]);
            }
        }
    }
    assert(strip_repeated(path, pre) == path);
    assert(strip_repeated(url, pre) == path);
    // The first four slashes close the owner, repository, kind and revision.
    crate::text::lemma_positions_absent(owner, '/');
    assert(owner + "/"@ =~= Seq::<char>::empty() + owner + "/"@);
    lemma_slash_step(Seq::<char>::empty(), owner);
    assert(positions_of(Seq::<char>::empty(), '/') == Seq::<int>::empty());
    lemma_slash_step(a1, repo);
    lemma_slash_step(a2, kind);
    lemma_slash_step(a3, rev);
    let q4 = positions_of(a4, '/');
    assert(q4 =~= seq![
        owner.len() as int,
        (owner.len() + 1 + repo.len()) as int,
        (owner.len() + 2 + repo.len() + kind.len()) as int,
        (owner.len() + 3 + repo.len() + kind.len() + rev.len()) as int,
    ]);
    crate::text::lemma_positions_concat(a4, file, '/');
    let q = positions_of(path, '/');
    assert(q.len() >= 4);
    assert(q[0] == q4[0] && q[1] == q4[1] && q[2] == q4[2] && q[3] == q4[3]);
    assert(piece(path, q, 0) =~= owner);
    assert(piece(path, q, 1) =~= repo);
    assert(piece(path, q, 2) =~= kind);
    assert(path.skip(q[3] + 1) =~= file);
}


/// A `{repo}:{file}` reference names the repository before its first colon
/// and the file after it, when both are non-empty and the reference is not
/// itself a HuggingFace URL.
pub proof fn law_colon_reference_parses(repo: Seq<char>, file: Seq<char>)
    requires
        repo.len() > 0,
        file.len() > 0,
        !repo.contains(':'),
        !starts_with(repo + ":"@ + file, hf_prefix()),
    ensures
        hf_reference(repo + ":"@ + file) == Ok::<(Seq<char>, Seq<char>), Seq<char>>((repo, file)),
{
    reveal_strlit(":");
    assert(":"@ =~= seq![':']);
    let url = repo + ":"@ + file;
    crate::text::lemma_positions_absent(repo, ':');
    crate::text::lemma_positions_single(':');
    crate::text::lemma_positions_concat(repo, ":"@, ':');
    assert(positions_of(":"@, ':').map_values(|x: int| x + repo.len()) =~= seq![repo.len() as int]);
    assert(positions_of(repo + ":"@, ':') =~= seq![repo.len() as int]);
    crate::text::lemma_positions_concat(repo + ":"@, file, ':');
    let c = positions_of(url, ':');
    assert(c[0] == repo.len());
    assert(url.take(c[0]) =~= repo);
    assert(url.skip(c[0] + 1) =~= file);
}


// ---------------------------------------------------------------------------
// Download states
// ---------------------------------------------------------------------------

/// Whether a stored download state means the model is usable.
pub fn is_ready_status(status: &str) -> (b: bool)
    ensures
        b == (status@ == "ready"@),
{
    str_eq(status, "ready")
}

/// Whether a catalogued model shows as downloaded: its stored state is
/// `ready` and its files are still on disk, so a model deleted behind the
/// app's back no longer shows as ready.
pub fn catalogue_downloaded(status: Option<&str>, files_present: bool) -> (b: bool)
    ensures
        b == (status matches Some(s) && s@ == "ready"@ && files_present),
{
    match status {
        Some(s) => is_ready_status(s) && files_present,
        None => false,
    }
}

/// Whether a metadata entry is a finished custom import, which the model list
/// shows next to the catalogue.
pub fn is_listed_custom(id: &str, status: &str) -> (b: bool)
    ensures
        b == (starts_with(id@, "custom-"@) && status@ == "ready"@),
{
    is_custom_model_id(id) && is_ready_status(status)
}

/// The progress of a download: not tracked, so there is never any.
pub fn get_download_progress(model_id: &str) -> (r: Result<Option<DownloadProgress>, String>)
    ensures
        r == Ok::<Option<DownloadProgress>, String>(None),
{
    Ok(None)
}

/// Where a downloaded file is recorded, relative to the model directory:
/// the architecture's directory and the file's own name.
pub fn stored_file_path(architecture: &str, filename: &str) -> (p: String)
    ensures
        p@ == architecture@ + "/"@ + file_name_of(filename@),
{
    let mut p = String::from_str(architecture);
    push_char(&mut p, '/');
    let name = file_name(filename);
    push_str(&mut p, name.as_str());
    proof {
        reveal_strlit("/");
        assert(p@ =~= architecture@ + "/"@ + file_name_of(filename@));
    }
    p
}

} // verus!
