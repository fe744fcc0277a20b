//! The local model catalogue: the recommended models, what a downloaded file is taken to
//! be, and download progress. Listing, downloading and deleting files is the caller's part.
use vstd::prelude::*;
use crate::text::{chars_of, concat3, ends_with, ends_with_chars};

verus! {

/// A recommended model.
#[derive(Debug, Clone)]
pub struct ModelRegistryEntry {
    pub id: String,
    pub name: String,
    pub size_mb: u64,
    pub description: String,
    /// "gguf" or "mlx".
    pub format: String,
    pub download_url: String,
    pub filename: String,
}

/// The mathematical value of a `ModelRegistryEntry`.
pub struct ModelRegistryEntryView {
    pub id: Seq<char>,
    pub name: Seq<char>,
    pub size_mb: u64,
    pub description: Seq<char>,
    pub format: Seq<char>,
    pub download_url: Seq<char>,
    pub filename: Seq<char>,
}

impl View for ModelRegistryEntry {
    type V = ModelRegistryEntryView;

    open spec fn view(&self) -> ModelRegistryEntryView {
        ModelRegistryEntryView {
            id: self.id@,
            name: self.name@,
            size_mb: self.size_mb,
            description: self.description@,
            format: self.format@,
            download_url: self.download_url@,
            filename: self.filename@,
        }
    }
}

impl ModelRegistryEntry {
    /// A copy of this value.
    pub fn duplicate(&self) -> (r: ModelRegistryEntry)
        ensures
            r@ == self@,
    {
        let r = ModelRegistryEntry {
            id: self.id.clone(),
            name: self.name.clone(),
            size_mb: self.size_mb,
            description: self.description.clone(),
            format: self.format.clone(),
            download_url: self.download_url.clone(),
            filename: self.filename.clone(),
        };
        r
    }
}

/// A downloaded model file.
#[derive(Debug, Clone)]
pub struct LocalModelInfo {
    pub id: String,
    pub name: String,
    pub filename: String,
    pub size_mb: u64,
    pub format: String,
    pub path: String,
}

/// The mathematical value of a `LocalModelInfo`.
pub struct LocalModelInfoView {
    pub id: Seq<char>,
    pub name: Seq<char>,
    pub filename: Seq<char>,
    pub size_mb: u64,
    pub format: Seq<char>,
    pub path: Seq<char>,
}

impl View for LocalModelInfo {
    type V = LocalModelInfoView;

    open spec fn view(&self) -> LocalModelInfoView {
        LocalModelInfoView {
            id: self.id@,
            name: self.name@,
            filename: self.filename@,
            size_mb: self.size_mb,
            format: self.format@,
            path: self.path@,
        }
    }
}

impl LocalModelInfo {
    /// A copy of this value.
    pub fn duplicate(&self) -> (r: LocalModelInfo)
        ensures
            r@ == self@,
    {
        let r = LocalModelInfo {
            id: self.id.clone(),
            name: self.name.clone(),
            filename: self.filename.clone(),
            size_mb: self.size_mb,
            format: self.format.clone(),
            path: self.path.clone(),
        };
        r
    }
}

/// Progress of a model download; the percentage is kept in hundredths of a percent.
#[derive(Debug, Clone)]
pub struct DownloadProgress {
    pub model_id: String,
    pub downloaded_bytes: u64,
    pub total_bytes: u64,
    pub percent_hundredths: u64,
}

/// The mathematical value of a `DownloadProgress`.
pub struct DownloadProgressView {
    pub model_id: Seq<char>,
    pub downloaded_bytes: u64,
    pub total_bytes: u64,
    pub percent_hundredths: u64,
}

impl View for DownloadProgress {
    type V = DownloadProgressView;

    open spec fn view(&self) -> DownloadProgressView {
        DownloadProgressView {
            model_id: self.model_id@,
            downloaded_bytes: self.downloaded_bytes,
            total_bytes: self.total_bytes,
            percent_hundredths: self.percent_hundredths,
        }
    }
}

impl DownloadProgress {
    /// A copy of this value.
    pub fn duplicate(&self) -> (r: DownloadProgress)
        ensures
            r@ == self@,
    {
        let r = DownloadProgress {
            model_id: self.model_id.clone(),
            downloaded_bytes: self.downloaded_bytes,
            total_bytes: self.total_bytes,
            percent_hundredths: self.percent_hundredths,
        };
        r
    }
}

/// The recommended models, in order.
pub open spec fn recommended() -> Seq<ModelRegistryEntryView> {
    seq![
        ModelRegistryEntryView {
            id: "qwen2.5-1.5b-instruct"@,
            name: "Qwen2.5 1.5B Instruct (GGUF Q4)"@,
            size_mb: 1100,
            description: "轻量级中英文模型，适合翻译、摘要等基础任务"@,
            format: "gguf"@,
            download_url: "https://huggingface.co/Qwen/Qwen2.5-1.5B-Instruct-GGUF/resolve/main/qwen2.5-1.5b-instruct-q4_k_m.gguf"@,
            filename: "qwen2.5-1.5b-instruct-q4_k_m.gguf"@,
        },
        ModelRegistryEntryView {
            id: "qwen2.5-3b-instruct"@,
            name: "Qwen2.5 3B Instruct (GGUF Q4)"@,
            size_mb: 2100,
            description: "中等大小中英文模型，平衡质量与速度"@,
            format: "gguf"@,
            download_url: "https://huggingface.co/Qwen/Qwen2.5-3B-Instruct-GGUF/resolve/main/qwen2.5-3b-instruct-q4_k_m.gguf"@,
            filename: "qwen2.5-3b-instruct-q4_k_m.gguf"@,
        },
        ModelRegistryEntryView {
            id: "qwen2.5-7b-instruct"@,
            name: "Qwen2.5 7B Instruct (GGUF Q4)"@,
            size_mb: 4700,
            description: "高质量中英文模型，适合复杂推理任务"@,
            format: "gguf"@,
            download_url: "https://huggingface.co/Qwen/Qwen2.5-7B-Instruct-GGUF/resolve/main/qwen2.5-7b-instruct-q4_k_m.gguf"@,
            filename: "qwen2.5-7b-instruct-q4_k_m.gguf"@,
        },
    ]
}

/// The views of the entries in `v`.
pub open spec fn registry_views(v: Seq<ModelRegistryEntry>) -> Seq<ModelRegistryEntryView> {
    Seq::new(v.len(), |i: int| v[i]@)
}

/// The recommended models.
pub fn recommended_models() -> (r: Vec<ModelRegistryEntry>)
    ensures
        registry_views(r@) == recommended(),
{
    let mut v: Vec<ModelRegistryEntry> = Vec::new();
    v.push(ModelRegistryEntry {
        id: "qwen2.5-1.5b-instruct".to_owned(),
        name: "Qwen2.5 1.5B Instruct (GGUF Q4)".to_owned(),
        size_mb: 1100,
        description: "轻量级中英文模型，适合翻译、摘要等基础任务".to_owned(),
        format: "gguf".to_owned(),
        download_url: "https://huggingface.co/Qwen/Qwen2.5-1.5B-Instruct-GGUF/resolve/main/qwen2.5-1.5b-instruct-q4_k_m.gguf".to_owned(),
        filename: "qwen2.5-1.5b-instruct-q4_k_m.gguf".to_owned(),
    });
    v.push(ModelRegistryEntry {
        id: "qwen2.5-3b-instruct".to_owned(),
        name: "Qwen2.5 3B Instruct (GGUF Q4)".to_owned(),
        size_mb: 2100,
        description: "中等大小中英文模型，平衡质量与速度".to_owned(),
        format: "gguf".to_owned(),
        download_url: "https://huggingface.co/Qwen/Qwen2.5-3B-Instruct-GGUF/resolve/main/qwen2.5-3b-instruct-q4_k_m.gguf".to_owned(),
        filename: "qwen2.5-3b-instruct-q4_k_m.gguf".to_owned(),
    });
    v.push(ModelRegistryEntry {
        id: "qwen2.5-7b-instruct".to_owned(),
        name: "Qwen2.5 7B Instruct (GGUF Q4)".to_owned(),
        size_mb: 4700,
        description: "高质量中英文模型，适合复杂推理任务".to_owned(),
        format: "gguf".to_owned(),
        download_url: "https://huggingface.co/Qwen/Qwen2.5-7B-Instruct-GGUF/resolve/main/qwen2.5-7b-instruct-q4_k_m.gguf".to_owned(),
        filename: "qwen2.5-7b-instruct-q4_k_m.gguf".to_owned(),
    });
    assert(registry_views(v@) =~= recommended());
    v
}

/// The recommended model whose file is `filename` (the first, if several).
pub open spec fn recommended_for_file(s: Seq<ModelRegistryEntryView>, filename: Seq<char>, k: int) -> Option<int>
    decreases s.len() - k,
{
    if k < 0 || k >= s.len() {
        None
    } else if s[k].filename == filename {
        Some(k)
    } else {
        recommended_for_file(s, filename, k + 1)
    }
}

/// What a downloaded file of `size_bytes` bytes at `path` is taken to be: the recommended
/// model with that file name, else a model named after the file, in format "gguf" when the
/// name ends with ".gguf" and "unknown" otherwise. Sizes are in whole mebibytes.
pub open spec fn local_model(filename: Seq<char>, size_bytes: u64, path: Seq<char>) -> LocalModelInfoView {
    let (id, name, format) = match recommended_for_file(recommended(), filename, 0) {
        Some(i) => (recommended()[i].id, recommended()[i].name, recommended()[i].format),
        None => (filename, filename, if ends_with(filename, ".gguf"@) { "gguf"@ } else { "unknown"@ }),
    };
    LocalModelInfoView { id, name, filename, size_mb: (size_bytes / 1048576) as u64, format, path }
}

/// What a downloaded file is taken to be.
pub fn local_model_info(filename: &str, size_bytes: u64, path: &str) -> (r: LocalModelInfo)
    ensures
        r@ == local_model(filename@, size_bytes, path@),
{
    let registry = recommended_models();
    let ghost s = registry_views(registry@);
    let key = filename.to_owned();
    let n = registry.len();
    let mut i: usize = 0;
    let mut found: Option<usize> = None;
    while i < n
        invariant
            n == registry@.len(),
            s == registry_views(registry@),
            s == recommended(),
            key@ == filename@,
            i <= n,
            found is None ==> recommended_for_file(s, filename@, 0) == recommended_for_file(s, filename@, i as int),
            found matches Some(j) ==> j < n && recommended_for_file(s, filename@, 0) == Some(j as int),
        decreases n - i,
    {
        if found.is_none() {
            if registry[i].filename == key {
                assert(s[i as int].filename == filename@);
                found = Some(i);
            } else {
                assert(s[i as int].filename != filename@);
            }
        }
        i = i + 1;
    }
    let size_mb = size_bytes / (1024 * 1024);
    match found {
        Some(j) => LocalModelInfo {
            id: registry[j].id.clone(),
            name: registry[j].name.clone(),
            filename: filename.to_owned(),
            size_mb,
            format: registry[j].format.clone(),
            path: path.to_owned(),
        },
        None => {
            let fc = chars_of(filename);
            let ext = chars_of(".gguf");
            let format = if ends_with_chars(&fc, &ext) { "gguf".to_owned() } else { "unknown".to_owned() };
            LocalModelInfo {
                id: filename.to_owned(),
                name: filename.to_owned(),
                filename: filename.to_owned(),
                size_mb,
                format,
                path: path.to_owned(),
            }
        },
    }
}

/// The message for a model file that is not there.
pub fn missing_model_message(filename: &str) -> (r: String)
    ensures
        r@ == "模型文件不存在: "@ + filename@,
{
    proof {
        reveal_strlit("");
    }
    concat3("模型文件不存在: ", filename, "")
}

/// The progress after `downloaded` of `total` bytes: the percentage in hundredths, rounded
/// down (and capped at the largest `u64`), and zero while the total is unknown (zero).
pub fn download_progress(model_id: &str, downloaded: u64, total: u64) -> (r: DownloadProgress)
    ensures
        r.model_id@ == model_id@,
        r.downloaded_bytes == downloaded,
        r.total_bytes == total,
        r.percent_hundredths == (if total == 0 {
            0
        } else if downloaded as int * 10000 / total as int > u64::MAX {
            u64::MAX as int
        } else {
            downloaded as int * 10000 / total as int
        }),
{
    let p: u64 = if total > 0 {
        let wide: u128 = (downloaded as u128) * 10000u128 / (total as u128);
        assert(wide == downloaded as int * 10000 / total as int);
        if wide > u64::MAX as u128 {
            u64::MAX
        } else {
            wide as u64
        }
    } else {
        0
    };
    DownloadProgress { model_id: model_id.to_owned(), downloaded_bytes: downloaded, total_bytes: total, percent_hundredths: p }
}

} // verus!
