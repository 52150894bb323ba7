//! The generation command's own logic: sampler names, the one-at-a-time
//! generation guard, prompt-enhancement replies, and the encoding of a result
//! for the UI.
use vstd::prelude::*;
use crate::error::{sd_error_text, SdError};
use crate::text::{
    chars_of, is_trimmed, is_white, lemma_labelled_line, lemma_split_then_piece,
    lemma_split_without_sep, matches_at, push_str, split_on, starts_with, str_eq, string_of_range, trim,
    trim_range,
};
use crate::cancel::{after_cancel, CancelHandle, CancelView};
use crate::types::SampleMethod;

verus! {

// ---------------------------------------------------------------------------
// Sampler names
// ---------------------------------------------------------------------------

/// The sampler a name selects; unknown names select Euler Ancestral.
pub open spec fn sampler_named(s: Seq<char>) -> SampleMethod {
    if s == "euler"@ {
        SampleMethod::Euler
    } else if s == "euler_a"@ {
        SampleMethod::EulerA
    } else if s == "heun"@ {
        SampleMethod::Heun
    } else if s == "dpm2"@ {
        SampleMethod::Dpm2
    } else if s == "dpm++2m"@ {
        SampleMethod::DpmPlusPlus2m
    } else if s == "lcm"@ {
        SampleMethod::Lcm
    } else {
        SampleMethod::EulerA
    }
}

/// The sampler a UI name selects; anything unknown is Euler Ancestral.
pub fn parse_sampler(s: &str) -> (m: SampleMethod)
    ensures
        m == sampler_named(s@),
{
    if str_eq(s, "euler") {
        SampleMethod::Euler
    } else if str_eq(s, "euler_a") {
        SampleMethod::EulerA
    } else if str_eq(s, "heun") {
        SampleMethod::Heun
    } else if str_eq(s, "dpm2") {
        SampleMethod::Dpm2
    } else if str_eq(s, "dpm++2m") {
        SampleMethod::DpmPlusPlus2m
    } else if str_eq(s, "lcm") {
        SampleMethod::Lcm
    } else {
        SampleMethod::EulerA
    }
}

// ---------------------------------------------------------------------------
// The generation guard
// ---------------------------------------------------------------------------

/// Whether a generation is running, and whether the user asked to cancel it.
#[derive(Debug, Clone, Copy, PartialEq, Eq, Structural)]
pub struct GenerationState {
    pub generating: bool,
    pub cancel_requested: bool,
}

/// What a finished generation amounts to for the UI.
#[derive(Debug, Clone, PartialEq, Eq)]
pub enum GenerationOutcome {
    /// The image is delivered.
    Completed,
    /// The user cancelled; no image is delivered.
    Cancelled,
    /// The engine failed; the message is shown.
    Failed(String),
}

/// The error shown when a generation is requested while one runs.
pub open spec fn busy_message() -> Seq<char> {
    "Generation already in progress"@
}

/// The error shown when a generation is requested with no model loaded.
pub open spec fn no_model_message() -> Seq<char> {
    "No model loaded. Please download and select a model first."@
}

/// Start a generation: refused while another runs, refused with no model
/// loaded; otherwise the guard closes and any earlier cancel is forgotten.
pub fn begin_generation(st: &mut GenerationState, model_loaded: bool) -> (r: Result<(), String>)
    ensures
        old(st).generating ==> (r matches Err(m) && m@ == busy_message()) && *final(st) == *old(st),
        !old(st).generating && !model_loaded ==> (r matches Err(m) && m@ == no_model_message())
            && *final(st) == *old(st),
        !old(st).generating && model_loaded ==> r is Ok && *final(st) == (GenerationState {
            generating: true,
            cancel_requested: false,
        }),
{
    if st.generating {
        return Err(String::from_str("Generation already in progress"));
    }
    if !model_loaded {
        return Err(String::from_str("No model loaded. Please download and select a model first."));
    }
    st.cancel_requested = false;
    st.generating = true;
    Ok(())
}

/// Whether a model of this architecture can edit from reference images:
/// only Flux Kontext is trained for it.
pub open spec fn edits_from_references(architecture: Seq<char>) -> bool {
    architecture == "flux-kontext"@
}

/// The refusal of reference images on a model that cannot edit from them.
pub open spec fn reference_refusal(architecture: Seq<char>) -> Seq<char> {
    "Edit Mode needs an editing model such as Flux Kontext; reference images cannot be used with a "@
        + architecture + " model"@
}

/// Reference images are refused on a model that cannot edit from them:
/// sd.cpp does not check, and such a model crashes on them.
pub fn check_reference_images(architecture: &str, ref_image_count: usize) -> (r: Result<(), String>)
    ensures
        ref_image_count == 0 || edits_from_references(architecture@) ==> r is Ok,
        ref_image_count > 0 && !edits_from_references(architecture@) ==> (r matches Err(m) && m@
            == reference_refusal(architecture@)),
{
    if ref_image_count == 0 || str_eq(architecture, "flux-kontext") {
        return Ok(());
    }
    let mut m = String::from_str(
        "Edit Mode needs an editing model such as Flux Kontext; reference images cannot be used with a ",
    );
    push_str(&mut m, architecture);
    push_str(&mut m, " model");
    Err(m)
}

/// The user pressed Cancel: the request is recorded and the guard opens.
pub fn cancel_generation(st: &mut GenerationState)
    ensures
        *final(st) == (GenerationState { generating: false, cancel_requested: true }),
{
    st.cancel_requested = true;
    st.generating = false;
}

/// Start a generation. Reference images are refused first, on a model that
/// cannot edit from them, with the guard left as it was; then a generation
/// is refused while another runs or with no model loaded; otherwise the
/// guard closes and any earlier cancel is forgotten.
pub fn start_generation(st: &mut GenerationState, model_loaded: bool, architecture: &str, ref_image_count: usize) -> (r:
    Result<(), String>)
    ensures
        ref_image_count > 0 && !edits_from_references(architecture@) ==> (r matches Err(m) && m@
            == reference_refusal(architecture@)) && *final(st) == *old(st),
        (ref_image_count == 0 || edits_from_references(architecture@)) && old(st).generating ==> (r matches Err(m)
            && m@ == busy_message()) && *final(st) == *old(st),
        (ref_image_count == 0 || edits_from_references(architecture@)) && !old(st).generating && !model_loaded ==> (
        r matches Err(m) && m@ == no_model_message()) && *final(st) == *old(st),
        (ref_image_count == 0 || edits_from_references(architecture@)) && !old(st).generating && model_loaded ==> r is Ok
            && *final(st) == (GenerationState { generating: true, cancel_requested: false }),
{
    match check_reference_images(architecture, ref_image_count) {
        Err(m) => Err(m),
        Ok(()) => begin_generation(st, model_loaded),
    }
}

/// The user pressed Cancel: the request is recorded and the guard opens,
/// and the same press is handed to native cancellation, which forwards it to
/// the published sd.cpp context or parks it until one is published. Returns
/// the context to cancel natively now.
pub fn request_cancel(st: &mut GenerationState, handle: &mut CancelHandle) -> (target: Option<u64>)
    ensures
        *final(st) == after_cancel_request(),
        (final(handle).view(), target) == after_cancel(old(handle).view()),
{
    cancel_generation(st);
    handle.cancel()
}

/// One press of Cancel does both things the user expects: the running
/// generation delivers no image whatever the engine returns, and the native
/// cancel reaches the context that is running, or is parked for the one
/// being loaded.
pub proof fn law_one_cancel_stops_the_engine(h: CancelView, result: Result<(), SdError>)
    ensures
        !delivers_image(after_cancel_request().cancel_requested, result),
        h.ctx is Some ==> after_cancel(h).1 == h.ctx,
        h.ctx is None ==> after_cancel(h).1 is None && after_cancel(h).0.pending,
{
}

/// The generation state a press of Cancel leaves.
pub open spec fn after_cancel_request() -> GenerationState {
    GenerationState { generating: false, cancel_requested: true }
}

/// Whether a finished generation delivers its image: the engine succeeded
/// and no cancel was requested while it ran.
pub open spec fn delivers_image(cancel_requested: bool, result: Result<(), SdError>) -> bool {
    result is Ok && !cancel_requested
}

/// Finish a generation: the guard opens, and the engine's result is judged.
pub fn finish_generation(st: &mut GenerationState, result: &Result<(), SdError>) -> (o:
    GenerationOutcome)
    ensures
        final(st).generating == false,
        final(st).cancel_requested == old(st).cancel_requested,
        (o == GenerationOutcome::Completed) == delivers_image(old(st).cancel_requested, *result),
        match *result {
            Ok(_) => if old(st).cancel_requested {
                o == GenerationOutcome::Cancelled
            } else {
                o == GenerationOutcome::Completed
            },
            Err(SdError::Cancelled) => o == GenerationOutcome::Cancelled,
            Err(e) => o matches GenerationOutcome::Failed(m) && m@ == sd_error_text(e),
        },
{
    st.generating = false;
    match result {
        Ok(_) => {
            if st.cancel_requested {
                GenerationOutcome::Cancelled
            } else {
                GenerationOutcome::Completed
            }
        },
        Err(SdError::Cancelled) => GenerationOutcome::Cancelled,
        Err(e) => GenerationOutcome::Failed(e.message()),
    }
}

/// A cancel requested during a generation means no image is delivered,
/// whatever the engine returns.
pub proof fn law_cancel_means_no_image(result: Result<(), SdError>)
    ensures
        !delivers_image(true, result),
{
}

/// The message of a failed generation event.
#[derive(Debug, Clone)]
pub struct GenerationErrorEvent {
    pub message: String,
    pub recovery: Option<String>,
}

/// The message of a failed video event.
#[derive(Debug, Clone)]
pub struct VideoErrorEvent {
    pub message: String,
}

// ---------------------------------------------------------------------------
// Prompt enhancement replies
// ---------------------------------------------------------------------------

/// An enhanced prompt and the negative prompt that goes with it.
#[derive(Debug, Clone)]
pub struct EnhancedPrompt {
    pub prompt: String,
    pub negative_prompt: String,
}

/// One reply line applied to the prompts found so far: a `PROMPT:` line
/// replaces the prompt, a `NEGATIVE:` line the negative prompt, each with the
/// text after the label, trimmed.
pub open spec fn enhance_line(acc: (Seq<char>, Seq<char>), line: Seq<char>) -> (Seq<char>, Seq<char>) {
    let t = trim(line);
    if starts_with(t, "PROMPT:"@) {
        (trim(t.skip("PROMPT:"@.len() as int)), acc.1)
    } else if starts_with(t, "NEGATIVE:"@) {
        (acc.0, trim(t.skip("NEGATIVE:"@.len() as int)))
    } else {
        acc
    }
}

/// All reply lines applied in order.
pub open spec fn enhance_lines(lines: Seq<Seq<char>>, init: (Seq<char>, Seq<char>)) -> (Seq<char>, Seq<char>)
    decreases lines.len(),
{
    if lines.len() == 0 {
        init
    } else {
        enhance_line(enhance_lines(lines.drop_last(), init), lines.last())
    }
}

/// The prompts a reply yields: the last labelled line of each kind wins; with
/// no `PROMPT:` line the whole reply is the prompt, and with no `NEGATIVE:`
/// line the negative prompt is empty.
pub open spec fn enhanced_from(text: Seq<char>) -> (Seq<char>, Seq<char>) {
    enhance_lines(split_on(text, '\n'), (text, Seq::<char>::empty()))
}

/// The bounds of the text after `label` on the trimmed line `v[a..b]`, trimmed
/// again, when the line begins with `label`.
fn labelled_rest(v: &Vec<char>, a: usize, b: usize, label: &Vec<char>) -> (r: Option<(usize, usize)>)
    requires
        a <= b <= v@.len(),
    ensures
        match r {
            Some((x, y)) => starts_with(v@.subrange(a as int, b as int), label@) && x <= y <= v@.len()
                && v@.subrange(x as int, y as int) == trim(
                v@.subrange(a as int, b as int).skip(label@.len() as int),
            ),
            None => !starts_with(v@.subrange(a as int, b as int), label@),
        },
{
    let t = Ghost(v@.subrange(a as int, b as int));
    if label.len() > b - a {
        return None;
    }
    if !matches_at(v, label, a) {
        proof {
            if starts_with(t@, label@) {
                assert(v@.subrange(a as int, a + label@.len()) =~= t@.subrange(0, label@.len() as int));
            }
        }
        return None;
    }
    assert(t@.subrange(0, label@.len() as int) =~= v@.subrange(a as int, a + label@.len()));
    let (x, y) = trim_range(v, a + label.len(), b);
    assert(v@.subrange(a + label@.len(), b as int) =~= t@.skip(label@.len() as int));
    Some((x, y))
}

/// Read the enhanced prompt and negative prompt out of an LLM reply in the
/// `PROMPT: …` / `NEGATIVE: …` format.
pub fn parse_enhance_response(text: String) -> (e: EnhancedPrompt)
    ensures
        (e.prompt@, e.negative_prompt@) == enhanced_from(text@),
{
    let v = chars_of(text.as_str());
    let prompt_label = chars_of("PROMPT:");
    let negative_label = chars_of("NEGATIVE:");
    let mut prompt = text.clone();
    let mut negative = String::new();
    let ghost init = (text@, Seq::<char>::empty());
    let ghost mut done: Seq<Seq<char>> = Seq::empty();
    let mut line_start: usize = 0;
    let mut i: usize = 0;
    assert(v@.take(0) =~= Seq::<char>::empty());
    loop
        invariant_except_break
            i <= v@.len(),
            split_on(v@.take(i as int), '\n') == done.push(v@.subrange(line_start as int, i as int)),
        invariant
            v@ == text@,
            prompt_label@ == "PROMPT:"@,
            negative_label@ == "NEGATIVE:"@,
            line_start <= i,
            (prompt@, negative@) == enhance_lines(done, init),
        ensures
            split_on(v@, '\n') == done,
            (prompt@, negative@) == enhance_lines(done, init),
        decreases v@.len() - i,
    {
        if i == v.len() || v[i] == '\n' {
            let (a, b) = trim_range(&v, line_start, i);
            let ghost line = v@.subrange(line_start as int, i as int);
            let ghost t = trim(line);
            assert(v@.subrange(a as int, b as int) == t);
            match labelled_rest(&v, a, b, &prompt_label) {
                Some((x, y)) => {
                    prompt = string_of_range(&v, x, y);
                },
                None => {
                    match labelled_rest(&v, a, b, &negative_label) {
                        Some((x, y)) => {
                            negative = string_of_range(&v, x, y);
                        },
                        None => {},
                    }
                },
            }
            proof {
                let nd = done.push(line);
                assert(nd.drop_last() =~= done);
                assert(nd.last() == line);
                if i < v@.len() {
                    let s1 = v@.take(i + 1);
                    assert(s1.drop_last() =~= v@.take(i as int));
                    assert(s1.last() == '\n');
                    assert(v@.subrange(i + 1, i + 1) =~= Seq::<char>::empty());
                } else {
                    assert(v@.take(i as int) =~= v@);
                }
                done = nd;
            }
            if i == v.len() {
                break;
            }
            i = i + 1;
            line_start = i;
        } else {
            proof {
                let s1 = v@.take(i + 1);
                assert(s1.drop_last() =~= v@.take(i as int));
                assert(s1.last() == v@[i as int]);
                let pre = split_on(v@.take(i as int), '\n');
                assert(pre.last() == v@.subrange(line_start as int, i as int));
                assert(v@.subrange(line_start as int, i + 1) =~= v@.subrange(line_start as int, i as int).push(v@[i as int]));
                assert(pre.update(pre.len() - 1, pre.last().push(v@[i as int])) =~= done.push(
                    v@.subrange(line_start as int, i + 1),
                ));
            }
            i = i + 1;
        }
    }
    EnhancedPrompt { prompt, negative_prompt: negative }
}


/// A reply in exactly the requested format, `PROMPT: {p}` then
/// `NEGATIVE: {n}` on the next line, yields `p` and `n` when neither holds a
/// line break or surrounding whitespace.
pub proof fn law_formatted_reply_round_trips(p: Seq<char>, n: Seq<char>)
    requires
        !p.contains('\n'),
        !n.contains('\n'),
        is_trimmed(p),
        is_trimmed(n),
    ensures
        enhanced_from("PROMPT: "@ + p + "\n"@ + "NEGATIVE: "@ + n) == (p, n),
{
    reveal_strlit("PROMPT: ");
    reveal_strlit("PROMPT:");
    reveal_strlit("NEGATIVE: ");
    reveal_strlit("NEGATIVE:");
    reveal_strlit("\n");
    let pl = "PROMPT:"@;
    let nl = "NEGATIVE:"@;
    assert(pl =~= seq!['P', 'R', 'O', 'M', 'P', 'T', ':']);
    assert(nl =~= seq!['N', 'E', 'G', 'A', 'T', 'I', 'V', 'E', ':']);
    assert(forall|i: int| 0 <= i < pl.len() ==> !is_white(#[trigger] pl[i]));
    assert(forall|i: int| 0 <= i < nl.len() ==> !is_white(#[trigger] nl[i]));
    let l1 = pl + seq![' '] + p;
    let l2 = nl + seq![' '] + n;
    assert("PROMPT: "@ + p =~= l1);
    assert("NEGATIVE: "@ + n =~= l2);
    let text = "PROMPT: "@ + p + "\n"@ + "NEGATIVE: "@ + n;
    assert(text =~= l1.push('\n') + l2);
    assert(!l1.contains('\n')) by {
        if l1.contains('\n') {
            let k = choose|k: int| 0 <= k < l1.len() && l1[k] == '\n';
            if k >= 8 {
                assert(p[k - 8] == '\n');
            }
        }
    }
    assert(!l2.contains('\n')) by {
        if l2.contains('\n') {
            let k = choose|k: int| 0 <= k < l2.len() && l2[k] == '\n';
            if k >= 10 {
                assert(n[k - 10] == '\n');
            }
        }
    }
    lemma_split_without_sep(l1, '\n');
    lemma_split_then_piece(l1, l2, '\n');
    let lines = split_on(text, '\n');
    assert(lines =~= seq![l1, l2]);
    assert(lines.drop_last() =~= seq![l1]);
    assert(seq![l1].drop_last() =~= Seq::<Seq<char>>::empty());
    lemma_labelled_line(pl, p);
    lemma_labelled_line(nl, n);
    let init = (text, Seq::<char>::empty());
    assert(enhance_lines(Seq::<Seq<char>>::empty(), init) == init);
    assert(seq![l1].last() == l1);
    assert(enhance_lines(seq![l1], init) == enhance_line(init, l1));
    assert(enhance_line(init, l1) == (p, Seq::<char>::empty()));
    let t2 = trim(l2);
    assert(t2[0] == 'N') by {
        assert(t2.subrange(0, nl.len() as int)[0] == nl[0]);
    }
    assert(!starts_with(t2, pl)) by {
        if starts_with(t2, pl) {
            assert(t2.subrange(0, pl.len() as int)[0] == pl[0]);
        }
    }
}

} // verus!
