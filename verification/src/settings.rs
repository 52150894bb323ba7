//! Settings the app keeps, and the requests it sends to a prompt-enhancing
//! language model.
use vstd::prelude::*;
use crate::text::{chars_of, push_str, string_of_range};

verus! {

/// The app's general settings.
#[derive(Debug, Clone)]
pub struct AppSettings {
    pub theme: String,
    pub model_directory: Option<String>,
    pub default_save_directory: Option<String>,
    pub show_advanced: bool,
    pub last_model: Option<String>,
    pub gallery_columns: u32,
    pub auto_save_gallery: bool,
}

impl Default for AppSettings {
    /// The system theme, no directories chosen, advanced options hidden, four
    /// gallery columns, and auto-save on.
    fn default() -> (s: Self)
        ensures
            s.theme@ == "system"@,
            s.model_directory is None,
            s.default_save_directory is None,
            !s.show_advanced,
            s.last_model is None,
            s.gallery_columns == 4,
            s.auto_save_gallery,
    {
        AppSettings {
            theme: String::from_str("system"),
            model_directory: None,
            default_save_directory: None,
            show_advanced: false,
            last_model: None,
            gallery_columns: 4,
            auto_save_gallery: true,
        }
    }
}

/// A model a local LLM server offers.
#[derive(Debug, Clone)]
pub struct LocalLlmModel {
    pub name: String,
    pub size: Option<u64>,
}

/// `s` without any trailing `/` (`str::trim_end_matches('/')`).
pub open spec fn without_trailing_slashes(s: Seq<char>) -> Seq<char>
    decreases s.len(),
{
    if s.len() > 0 && s.last() == '/' {
        without_trailing_slashes(s.drop_last())
    } else {
        s
    }
}

/// The URL of `path` on a server whose base is `endpoint`: any trailing
/// slashes of the endpoint are dropped before `path` is appended.
pub fn endpoint_url(endpoint: &str, path: &str) -> (u: String)
    ensures
        u@ == without_trailing_slashes(endpoint@) + path@,
{
    let v = chars_of(endpoint);
    let mut n = v.len();
    assert(v@.take(n as int) =~= v@);
    while n > 0 && v[n - 1] == '/'
        invariant
            n <= v@.len(),
            without_trailing_slashes(v@.take(n as int)) == without_trailing_slashes(v@),
        decreases n,
    {
        assert(v@.take(n as int).drop_last() =~= v@.take(n - 1));
        n = n - 1;
    }
    proof {
        let t = v@.take(n as int);
        if t.len() > 0 {
            assert(t.last() == v@[n - 1]);
        }
    }
    let mut u = string_of_range(&v, 0, n);
    assert(v@.subrange(0, n as int) =~= v@.take(n as int));
    push_str(&mut u, path);
    u
}

/// The system prompt that tells the model how to enhance a prompt and in
/// which format to answer.
pub const ENHANCE_SYSTEM_PROMPT: &'static str = "You are an expert AI image generation prompt engineer. Enhance the user's simple prompt into a detailed, professional image generation prompt, and generate an appropriate negative prompt.\n\nPositive prompt rules:\n- Keep the core subject/intent of the original prompt\n- Add specific visual details: materials, textures, colors, lighting\n- Add composition details: camera angle, lens type, depth of field\n- Add mood/atmosphere: time of day, weather, emotional tone\n- Add style keywords: photorealistic, cinematic, detailed, sharp focus\n- Add technical quality boosters: 8k, high resolution, detailed textures\n- Keep it under 200 words\n- Match the style to the content (photorealistic for photos, artistic terms for art, etc.)\n\nNegative prompt rules:\n- Include common quality issues to avoid: blurry, low quality, distorted, deformed\n- Add content-appropriate exclusions (e.g., for portraits: extra limbs, bad anatomy, bad hands)\n- Keep it concise — 10-30 words max\n\nOutput format — use EXACTLY this format:\nPROMPT: [enhanced prompt]\nNEGATIVE: [negative prompt]\n\nOutput ONLY these two lines. No explanation, no quotes, no other text.";

/// The user message that asks for a prompt to be enhanced.
pub fn enhance_user_message(prompt: &str) -> (m: String)
    ensures
        m@ == "Enhance this image generation prompt:\n\n"@ + prompt@,
{
    let mut m = String::from_str("Enhance this image generation prompt:\n\n");
    push_str(&mut m, prompt);
    m
}

} // verus!
