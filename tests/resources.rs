use autotalk::resources::{get_default_resources, get_resource_display_name};

#[test]
fn default_resources_table() {
    let r = get_default_resources();
    assert_eq!(r.len(), 5);
    let names: Vec<&str> = r.iter().map(|x| x.name.as_str()).collect();
    assert_eq!(
        names,
        vec!["ggml-small.bin", "ggml-base.bin", "ggml-tiny.bin", "ggml-medium-zh.bin", "demo-model.bin"]
    );
    assert_eq!(r[0].target_path, "models/ggml-small.bin");
    assert_eq!(r[0].file_size, Some(466_781_312));
    assert!(r[0].required);
    assert!(!r[1].required);
    assert_eq!(
        r[3].url,
        "https://huggingface.co/ggerganov/whisper.cpp/resolve/main/ggml-medium.bin"
    );
    assert_eq!(r[4].file_size, Some(10_240));
    assert!(r[4].required);
}

#[test]
fn display_names() {
    assert_eq!(get_resource_display_name("ggml-small.bin"), "Whisper 小型模型 (较准确, 较慢)");
    assert_eq!(get_resource_display_name("ggml-base.bin"), "Whisper 中型模型 (平衡)");
    assert_eq!(get_resource_display_name("ggml-tiny.bin"), "Whisper 微型模型 (快速, 较不准确)");
    assert_eq!(get_resource_display_name("ggml-medium-zh.bin"), "Whisper 中文优化模型 (最准确)");
    assert_eq!(get_resource_display_name("demo-model.bin"), "演示模型 (仅用于测试)");
    assert_eq!(get_resource_display_name("other.bin"), "other.bin");
    assert_eq!(get_resource_display_name(""), "");
}
