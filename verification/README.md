# blink

The verified core of Blink, a desktop app for local image generation on top
of stable-diffusion.cpp. The library states what each piece of the app's logic
does in `requires` / `ensures` contracts and proves it with Verus.

## Layout

- `src/` — the library, every function verified:
  - `progress` — the progress-phase machine fed by sd.cpp's log lines and
    progress events;
  - `cancel` — native cancellation across model loads and switches;
  - `placement` — whether a model's weights stay on the GPU, and the engine
    configuration a load uses;
  - `types`, `engine`, `inputs` — the checks a request passes, the images it
    hands to sd.cpp, the inference thread's protocol and what sd.cpp hands
    back;
  - `generation` — the generation guard, sampler names, prompt-enhancement
    replies;
  - `models`, `download` — the model catalogue, custom imports, downloads and
    which files a model starts with;
  - `gallery` — item ids, sidecar files and the newest-first order;
  - `imaging` — pixel conversions, PNG, Base64 and animated GIF encodings;
  - `error`, `gpu`, `settings`, `text` — messages, backends, settings and the
    string reasoning the rest is built on.
- `tests/` — tests run against the compiled library.
- `app/` — the unverified shell: files on disk, HuggingFace and language-model
  network calls, serde copies of the library's types, float-valued requests.
  The stable-diffusion.cpp bindings are not a dependency of this build, so
  the engine calls themselves are absent; the shell's commands take the
  engine's results as arguments.

Calls into the `image` and `base64` crates and into `str::to_lowercase` /
`String::push` sit behind small trusted wrappers whose contracts name their
results; everything around them is proved.
