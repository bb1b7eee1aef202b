use gitdiff::source::diff_from_buffers;
use gitdiff::source::untracked_file_diff;
use gitdiff::types::DiffLineType;

static HUNK_A: &str = r"
1   start
2
3
4
5
6   middle
7
8
9
0
1   end";

static HUNK_B: &str = r"
1   start
2   newa
3
4
5
6   middle
7
8
9
0   newb
1   end";

#[test]
fn test_untracked_file_is_one_hunk_of_additions() {
    let content = b"test\nfoo".to_vec();
    let diff = untracked_file_diff(&content, "foo/bar.txt").unwrap();

    assert_eq!(diff.0.len(), 1);
    assert_eq!(diff.0[0].0[1].content, "test\n");
    assert_eq!(diff.0[0].0[0].line_type, DiffLineType::Header);
    // the file's two lines, exactly and in order, both additions;
    // the engine closes with its no-trailing-newline marker line
    assert_eq!(diff.0[0].0[1].line_type, DiffLineType::Add);
    assert_eq!(diff.0[0].0[2].content, "foo");
    assert_eq!(diff.0[0].0[2].line_type, DiffLineType::Add);
    assert_eq!(diff.0[0].0.len(), 4);
    assert!(diff.0[0].0[3].content.contains("No newline"));
    let sum: usize = diff.0.iter().map(|h| h.0.len()).sum();
    assert_eq!(diff.1 as usize, sum);
}

#[test]
fn test_untracked_nested_path_behaves_like_top_level() {
    let content = b"a\nb\nc\n".to_vec();
    let nested = untracked_file_diff(&content, "foo/bar/baz.txt").unwrap();
    let top = untracked_file_diff(&content, "baz.txt").unwrap();

    assert_eq!(nested.0.len(), 1);
    assert_eq!(top.0.len(), 1);
    assert_eq!(nested.0[0].0.len(), top.0[0].0.len());
    // one header line, then exactly the three added lines of the file
    assert_eq!(nested.0[0].0.len(), 4);
    assert_eq!(nested.0[0].0[1].content, "a\n");
    assert_eq!(nested.0[0].0[2].content, "b\n");
    assert_eq!(nested.0[0].0[3].content, "c\n");
    for (a, b) in nested.0[0].0.iter().zip(top.0[0].0.iter()) {
        assert_eq!(a.content, b.content);
        assert_eq!(a.line_type, b.line_type);
    }
}

#[test]
fn test_unchanged_buffers_yield_empty_diff() {
    let content = b"one\ntwo\nthree\n".to_vec();
    let diff = diff_from_buffers(&content, &content, "bar.txt").unwrap();

    assert_eq!(diff.0.len(), 0);
    assert_eq!(diff.1, 0);
}

#[test]
fn test_two_separated_edits_make_two_hunks() {
    let diff =
        diff_from_buffers(&HUNK_A.as_bytes().to_vec(), &HUNK_B.as_bytes().to_vec(), "bar.txt")
            .unwrap();

    assert_eq!(diff.0.len(), 2);

    let first: String = diff.0[0].0.iter().map(|l| l.content.clone()).collect();
    let second: String = diff.0[1].0.iter().map(|l| l.content.clone()).collect();
    assert!(first.contains("newa"));
    assert!(!first.contains("newb"));
    assert!(second.contains("newb"));
    assert!(!second.contains("newa"));

    // each hunk: one header, then its own change region's lines in order
    assert_eq!(diff.0[0].0[0].line_type, DiffLineType::Header);
    assert_eq!(diff.0[1].0[0].line_type, DiffLineType::Header);
    let adds_first: Vec<&str> = diff.0[0]
        .0
        .iter()
        .filter(|l| l.line_type == DiffLineType::Add)
        .map(|l| l.content.as_str())
        .collect();
    assert_eq!(adds_first, vec!["2   newa\n"]);
    let adds_second: Vec<&str> = diff.0[1]
        .0
        .iter()
        .filter(|l| l.line_type == DiffLineType::Add)
        .map(|l| l.content.as_str())
        .collect();
    assert_eq!(adds_second, vec!["0   newb\n"]);

    let sum: usize = diff.0.iter().map(|h| h.0.len()).sum();
    assert_eq!(diff.1 as usize, sum);
    for hunk in &diff.0 {
        assert!(!hunk.0.is_empty());
    }
}
