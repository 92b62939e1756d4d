//! Model registry, metadata and path resolution.
//!
//! Two registries are provided: Thai-tuned models and standard multilingual
//! ones.  [`ModelPaths`] resolves where a model's file lives under a models
//! directory; whether the file is present on disk is an I/O question
//! answered outside the library.

use vstd::prelude::*;

use crate::paths::AppPaths;
use crate::text::str_eq;

verus! {

/// Approximate capacity tier of a speech model.
#[derive(Debug, Clone, Copy, PartialEq, Eq, Hash, Structural)]
pub enum ModelSize {
    /// Fastest, lowest accuracy.
    Small,
    /// Balanced (recommended).
    Medium,
    /// Highest accuracy, slowest.
    Large,
}

/// Static metadata for a single model file.
#[derive(Debug, Clone, Copy)]
pub struct ModelInfo {
    /// Unique identifier used in configuration (e.g. `"thonburian-medium"`).
    pub id: &'static str,
    /// Human-readable display name.
    pub display_name: &'static str,
    /// Model capacity tier.
    pub size: ModelSize,
    /// File name under the models directory.
    pub file_name: &'static str,
    /// Approximate compressed file size in megabytes.
    pub file_size_mb: u64,
    /// Minimum RAM required to run this model, in megabytes.
    pub ram_required_mb: u64,
    /// Source URL for downloading the model file.
    pub source_url: &'static str,
    /// ISO-639-1 language code this model is optimised for, or
    /// `"multilingual"`.
    pub language: &'static str,
}

/// The Thai-tuned models, smallest first.
pub open spec fn spec_thai_models() -> Seq<ModelInfo> {
    seq![
        (ModelInfo {
            id: "thonburian-small",
            display_name: "Thonburian Whisper Small (Thai)",
            size: ModelSize::Small,
            file_name: "ggml-thonburian-small.bin",
            file_size_mb: 242,
            ram_required_mb: 900,
            source_url: "https://huggingface.co/biodatlab/whisper-small-th-combined",
            language: "th",
        }),
        (ModelInfo {
            id: "thonburian-medium",
            display_name: "Thonburian Whisper Medium (Thai) [Recommended]",
            size: ModelSize::Medium,
            file_name: "ggml-thonburian-medium.bin",
            file_size_mb: 769,
            ram_required_mb: 3000,
            source_url: "https://huggingface.co/biodatlab/whisper-th-medium-combined",
            language: "th",
        }),
        (ModelInfo {
            id: "thonburian-large",
            display_name: "Thonburian Whisper Large (Thai)",
            size: ModelSize::Large,
            file_name: "ggml-thonburian-large.bin",
            file_size_mb: 1500,
            ram_required_mb: 6000,
            source_url: "https://huggingface.co/biodatlab/whisper-th-large-combined",
            language: "th",
        }),
    ]
}

/// The standard multilingual models, smallest first.
pub open spec fn spec_whisper_models() -> Seq<ModelInfo> {
    seq![
        (ModelInfo {
            id: "whisper-small",
            display_name: "Whisper Small (Multilingual, 99 langs)",
            size: ModelSize::Small,
            file_name: "ggml-whisper-small.bin",
            file_size_mb: 244,
            ram_required_mb: 1000,
            source_url: "https://huggingface.co/ggerganov/whisper.cpp",
            language: "multilingual",
        }),
        (ModelInfo {
            id: "whisper-medium",
            display_name: "Whisper Medium (Multilingual, 99 langs)",
            size: ModelSize::Medium,
            file_name: "ggml-whisper-medium.bin",
            file_size_mb: 769,
            ram_required_mb: 3000,
            source_url: "https://huggingface.co/ggerganov/whisper.cpp",
            language: "multilingual",
        }),
        (ModelInfo {
            id: "whisper-large-v3",
            display_name: "Whisper Large-v3 (Multilingual, 99 langs)",
            size: ModelSize::Large,
            file_name: "ggml-whisper-large-v3.bin",
            file_size_mb: 1550,
            ram_required_mb: 6000,
            source_url: "https://huggingface.co/ggerganov/whisper.cpp",
            language: "multilingual",
        }),
    ]
}

/// The Thai-tuned model registry.
pub fn thai_models() -> (r: Vec<ModelInfo>)
    ensures
        r@ == spec_thai_models(),
{
    let mut r: Vec<ModelInfo> = Vec::new();
    r.push(
        ModelInfo {
            id: "thonburian-small",
            display_name: "Thonburian Whisper Small (Thai)",
            size: ModelSize::Small,
            file_name: "ggml-thonburian-small.bin",
            file_size_mb: 242,
            ram_required_mb: 900,
            source_url: "https://huggingface.co/biodatlab/whisper-small-th-combined",
            language: "th",
        },
    );
    r.push(
        ModelInfo {
            id: "thonburian-medium",
            display_name: "Thonburian Whisper Medium (Thai) [Recommended]",
            size: ModelSize::Medium,
            file_name: "ggml-thonburian-medium.bin",
            file_size_mb: 769,
            ram_required_mb: 3000,
            source_url: "https://huggingface.co/biodatlab/whisper-th-medium-combined",
            language: "th",
        },
    );
    r.push(
        ModelInfo {
            id: "thonburian-large",
            display_name: "Thonburian Whisper Large (Thai)",
            size: ModelSize::Large,
            file_name: "ggml-thonburian-large.bin",
            file_size_mb: 1500,
            ram_required_mb: 6000,
            source_url: "https://huggingface.co/biodatlab/whisper-th-large-combined",
            language: "th",
        },
    );
    proof {
        assert(r@ =~= spec_thai_models());
    }
    r
}

/// The standard multilingual model registry.
pub fn whisper_models() -> (r: Vec<ModelInfo>)
    ensures
        r@ == spec_whisper_models(),
{
    let mut r: Vec<ModelInfo> = Vec::new();
    r.push(
        ModelInfo {
            id: "whisper-small",
            display_name: "Whisper Small (Multilingual, 99 langs)",
            size: ModelSize::Small,
            file_name: "ggml-whisper-small.bin",
            file_size_mb: 244,
            ram_required_mb: 1000,
            source_url: "https://huggingface.co/ggerganov/whisper.cpp",
            language: "multilingual",
        },
    );
    r.push(
        ModelInfo {
            id: "whisper-medium",
            display_name: "Whisper Medium (Multilingual, 99 langs)",
            size: ModelSize::Medium,
            file_name: "ggml-whisper-medium.bin",
            file_size_mb: 769,
            ram_required_mb: 3000,
            source_url: "https://huggingface.co/ggerganov/whisper.cpp",
            language: "multilingual",
        },
    );
    r.push(
        ModelInfo {
            id: "whisper-large-v3",
            display_name: "Whisper Large-v3 (Multilingual, 99 langs)",
            size: ModelSize::Large,
            file_name: "ggml-whisper-large-v3.bin",
            file_size_mb: 1550,
            ram_required_mb: 6000,
            source_url: "https://huggingface.co/ggerganov/whisper.cpp",
            language: "multilingual",
        },
    );
    proof {
        assert(r@ =~= spec_whisper_models());
    }
    r
}

/// The recommended model list for a language code: the Thai registry for
/// `"th"`, the multilingual registry otherwise.
pub fn models_for_language(language: &str) -> (r: Vec<ModelInfo>)
    ensures
        r@ == (if language@ == "th"@ {
            spec_thai_models()
        } else {
            spec_whisper_models()
        }),
{
    if str_eq(language, "th") {
        thai_models()
    } else {
        whisper_models()
    }
}

/// Both registries in order: Thai models, then multilingual ones.
pub open spec fn spec_all_models() -> Seq<ModelInfo> {
    spec_thai_models() + spec_whisper_models()
}

/// The first index in `s` whose model has identifier `id`, or `s.len()`
/// when there is none.
pub open spec fn find_model(s: Seq<ModelInfo>, id: Seq<char>, from: int) -> int
    decreases s.len() - from when 0 <= from <= s.len()
{
    if from >= s.len() {
        s.len() as int
    } else if s[from].id@ == id {
        from
    } else {
        find_model(s, id, from + 1)
    }
}

/// Find a model by its `id` string, searching the Thai registry and then
/// the multilingual one; `None` when the identifier is unknown.
#[verifier::loop_isolation(false)]
pub fn find_model_by_id(id: &str) -> (r: Option<ModelInfo>)
    ensures
        ({
            let all = spec_all_models();
            let j = find_model(all, id@, 0);
            if j < all.len() {
                r == Some(all[j])
            } else {
                r is None
            }
        }),
{
    let mut all = thai_models();
    let mut rest = whisper_models();
    all.append(&mut rest);
    proof {
        assert(all@ =~= spec_all_models());
    }
    let n = all.len();
    let mut i: usize = 0;
    while i < n
        invariant
            i <= n,
            n == all@.len(),
            all@ == spec_all_models(),
            find_model(all@, id@, 0) == find_model(all@, id@, i as int),
        decreases n - i,
    {
        if str_eq(all[i].id, id) {
            proof {
                reveal_with_fuel(find_model, 2);
            }
            return Some(all[i]);
        }
        proof {
            reveal_with_fuel(find_model, 2);
        }
        i = i + 1;
    }
    None
}

/// Resolves the on-disk location of model files under a models directory.
#[derive(Debug, Clone)]
pub struct ModelPaths {
    /// Directory that contains (or will contain) the model files.
    pub models_dir: String,
}

impl ModelPaths {
    /// Build a [`ModelPaths`] from the application's [`AppPaths`].
    pub fn from_app_paths(app_paths: &AppPaths) -> (r: Self)
        ensures
            r.models_dir@ == app_paths.models_dir@,
    {
        ModelPaths { models_dir: app_paths.models_dir.clone() }
    }

    /// Construct directly from a models directory path.
    pub fn new(models_dir: &str) -> (r: Self)
        ensures
            r.models_dir@ == models_dir@,
    {
        ModelPaths { models_dir: models_dir.to_owned() }
    }

    /// Full path to the file for the given model: the models directory, a
    /// separator, and the model's file name.
    pub fn model_path(&self, model: &ModelInfo) -> (r: String)
        ensures
            r@ == self.models_dir@ + "/"@ + model.file_name@,
    {
        let mut p = self.models_dir.clone();
        p.append("/");
        p.append(model.file_name);
        p
    }
}

} // verus!
