use rust_hexo::text::join_path;

#[test]
fn test_string_mutability() {
    let mut content = String::with_capacity(4096);

    content.push_str(&format!("测试内容"));
    content.push('\n');
    content.push_str(&format!("带有格式化的内容: {}", "示例文本"));
    content.push('\n');
    content.push_str(&format!("复杂格式化: {{}} 和 {}", "实际值"));
    content.push('\n');

    assert!(content.contains("测试内容"));
    assert!(content.contains("带有格式化的内容: 示例文本"));
    assert!(content.contains("复杂格式化: {} 和 实际值"));

    assert!(content.capacity() >= 4096);

    println!("测试通过：字符串可变性和容量预分配正确");
}

#[test]
fn test_path_operations() {
    let base = String::from("/test/base");
    let rel = String::from("relative/path");

    let combined = join_path(&base, &rel);
    assert_eq!(combined, String::from("/test/base/relative/path"));
    println!("测试通过: 路径操作正常");
}

#[test]
fn test_content_mutability() {
    let mut content = String::with_capacity(4096);

    content.push_str(&format!("测试字符串: {}", "这是一个测试"));
    content.push('\n');
    content.push_str(&format!("复杂格式化: {{}} 和 {{}}"));
    content.push('\n');

    assert!(content.len() > 0);
    assert!(content.capacity() >= 4096);
}
