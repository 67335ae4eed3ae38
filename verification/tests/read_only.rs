//! The line filter of a source scan: what counts as production code.

/// Production lines: no comment lines, and nothing inside a block marked as
/// test code. Brace-counted so code after a test module is still scanned.
fn production_lines(source: &str) -> Vec<(usize, &str)> {
    let mut lines = Vec::new();
    let mut in_test = false;
    let mut depth = 0_i32;
    for (index, line) in source.lines().enumerate() {
        let trimmed = line.trim_start();
        if !in_test && trimmed.starts_with("#[cfg(test)]") {
            in_test = true;
            depth = 0;
            continue;
        }
        if in_test {
            depth += count_of(line, '{') - count_of(line, '}');
            if depth <= 0 {
                in_test = false;
            }
            continue;
        }
        if !trimmed.starts_with("//") {
            lines.push((index + 1, line));
        }
    }
    lines
}

fn count_of(line: &str, brace: char) -> i32 {
    i32::try_from(line.matches(brace).count()).unwrap_or(i32::MAX)
}

/// `.expect(` and `.unwrap(` on a production line. `unwrap_or_else` and
/// `expect_err` are other methods; they do not contain these tokens.
fn panic_token(line: &str) -> Option<&'static str> {
    if line.contains(".expect(") {
        Some(".expect(")
    } else if line.contains(".unwrap(") {
        Some(".unwrap(")
    } else {
        None
    }
}

#[test]
fn the_scan_keeps_production_code_and_drops_the_rest() {
    let source = "//! a doc comment\n\
        fn kept() {}\n\
        // a line comment\n\
        #[cfg(test)]\n\
        mod tests {\n\
        \x20   fn nested() { let _ = \"0x06\"; }\n\
        }\n\
        fn also_kept() {}\n";

    let lines = production_lines(source);

    assert_eq!(lines, vec![(2, "fn kept() {}"), (8, "fn also_kept() {}")]);
}

#[test]
fn panic_tokens_hit_production_and_ignore_the_rest() {
    let source = "fn boom() { x.expect(\"a\"); }\n\
        fn also() { y.unwrap(); }\n\
        // a line comment with .expect(\"no\") and .unwrap()\n\
        #[cfg(test)]\n\
        mod tests {\n\
        \x20   fn nested() { z.expect(\"t\"); z.unwrap(); }\n\
        }\n\
        fn poison() { lock.unwrap_or_else(into_inner); }\n\
        fn check() { result.expect_err(\"should fail\"); }\n\
        fn still_kept() {}\n";

    let hits: Vec<(usize, &str, &str)> = production_lines(source)
        .into_iter()
        .filter_map(|(number, line)| panic_token(line).map(|token| (number, line, token)))
        .collect();

    assert_eq!(
        hits,
        vec![
            (1, "fn boom() { x.expect(\"a\"); }", ".expect("),
            (2, "fn also() { y.unwrap(); }", ".unwrap("),
        ]
    );
}
