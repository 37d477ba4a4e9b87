use vstd::prelude::*;

verus! {

/// A model that can be fetched, with a line describing it.
#[derive(Debug)]
pub struct ModelResource {
    pub name: String,
    pub url: String,
    pub file_name: String,
    pub file_size: Option<u64>,
    pub description: String,
}

/// A file to fetch: where from, where to, its expected size, and whether
/// the program needs it.
#[derive(Clone, Debug)]
pub struct DownloadResource {
    pub name: String,
    pub url: String,
    pub target_path: String,
    pub file_size: Option<u64>,
    pub required: bool,
}

/// `r` holds exactly these fields.
pub open spec fn describes(
    r: DownloadResource,
    name: &str,
    url: &str,
    target_path: &str,
    file_size: u64,
    required: bool,
) -> bool {
    &&& r.name@ == name@
    &&& r.url@ == url@
    &&& r.target_path@ == target_path@
    &&& r.file_size == Some(file_size)
    &&& r.required == required
}

fn resource(name: &str, url: &str, target_path: &str, file_size: u64, required: bool) -> (r:
    DownloadResource)
    ensures
        describes(r, name, url, target_path, file_size, required),
{
    DownloadResource {
        name: name.to_owned(),
        url: url.to_owned(),
        target_path: target_path.to_owned(),
        file_size: Some(file_size),
        required,
    }
}

/// The files the program knows how to fetch: four speech models and a small
/// demonstration file, in this order.
pub fn get_default_resources() -> (r: Vec<DownloadResource>)
    ensures
        r@.len() == 5,
        describes(
            r@[0],
            "ggml-small.bin",
            "https://huggingface.co/ggerganov/whisper.cpp/resolve/main/ggml-small.bin",
            "models/ggml-small.bin",
            466_781_312,
            true,
        ),
        describes(
            r@[1],
            "ggml-base.bin",
            "https://huggingface.co/ggerganov/whisper.cpp/resolve/main/ggml-base.bin",
            "models/ggml-base.bin",
            142_605_824,
            false,
        ),
        describes(
            r@[2],
            "ggml-tiny.bin",
            "https://huggingface.co/ggerganov/whisper.cpp/resolve/main/ggml-tiny.bin",
            "models/ggml-tiny.bin",
            75_855_224,
            false,
        ),
        describes(
            r@[3],
            "ggml-medium-zh.bin",
            "https://huggingface.co/ggerganov/whisper.cpp/resolve/main/ggml-medium.bin",
            "models/ggml-medium-zh.bin",
            1_500_000_000,
            false,
        ),
        describes(
            r@[4],
            "demo-model.bin",
            "https://raw.githubusercontent.com/openai/whisper/main/README.md",
            "models/demo-model.bin",
            10_240,
            true,
        ),
{
    let mut r: Vec<DownloadResource> = Vec::new();
    r.push(
        resource(
            "ggml-small.bin",
            "https://huggingface.co/ggerganov/whisper.cpp/resolve/main/ggml-small.bin",
            "models/ggml-small.bin",
            466_781_312,
            true,
        ),
    );
    r.push(
        resource(
            "ggml-base.bin",
            "https://huggingface.co/ggerganov/whisper.cpp/resolve/main/ggml-base.bin",
            "models/ggml-base.bin",
            142_605_824,
            false,
        ),
    );
    r.push(
        resource(
            "ggml-tiny.bin",
            "https://huggingface.co/ggerganov/whisper.cpp/resolve/main/ggml-tiny.bin",
            "models/ggml-tiny.bin",
            75_855_224,
            false,
        ),
    );
    r.push(
        resource(
            "ggml-medium-zh.bin",
            "https://huggingface.co/ggerganov/whisper.cpp/resolve/main/ggml-medium.bin",
            "models/ggml-medium-zh.bin",
            1_500_000_000,
            false,
        ),
    );
    r.push(
        resource(
            "demo-model.bin",
            "https://raw.githubusercontent.com/openai/whisper/main/README.md",
            "models/demo-model.bin",
            10_240,
            true,
        ),
    );
    r
}

/// The name shown for a resource: a description for the known files, the
/// name itself for any other.
pub open spec fn display_name(name: Seq<char>) -> Seq<char> {
    if name == "ggml-small.bin"@ {
        "Whisper 小型模型 (较准确, 较慢)"@
    } else if name == "ggml-base.bin"@ {
        "Whisper 中型模型 (平衡)"@
    } else if name == "ggml-tiny.bin"@ {
        "Whisper 微型模型 (快速, 较不准确)"@
    } else if name == "ggml-medium-zh.bin"@ {
        "Whisper 中文优化模型 (最准确)"@
    } else if name == "demo-model.bin"@ {
        "演示模型 (仅用于测试)"@
    } else {
        name
    }
}

pub fn get_resource_display_name(name: &str) -> (r: String)
    ensures
        r@ == display_name(name@),
{
    let n = name.to_owned();
    if n == "ggml-small.bin".to_owned() {
        "Whisper 小型模型 (较准确, 较慢)".to_owned()
    } else if n == "ggml-base.bin".to_owned() {
        "Whisper 中型模型 (平衡)".to_owned()
    } else if n == "ggml-tiny.bin".to_owned() {
        "Whisper 微型模型 (快速, 较不准确)".to_owned()
    } else if n == "ggml-medium-zh.bin".to_owned() {
        "Whisper 中文优化模型 (最准确)".to_owned()
    } else if n == "demo-model.bin".to_owned() {
        "演示模型 (仅用于测试)".to_owned()
    } else {
        n
    }
}

} // verus!
