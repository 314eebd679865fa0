use delivery::text::chars_of;
use delivery::text::contains;
use delivery::text::contains_line;
use delivery::text::same_text;
use delivery::utils::Candidate;
use delivery::utils::content_digest;
use delivery::utils::digests_differ;
use delivery::utils::file_needs_updated;
use delivery::utils::find_first_existing;
use delivery::utils::path_to_string;
use delivery::utils::walk_tree_for_path;

fn candidates_for(target: &str, dirs: &[(&str, bool)]) -> Vec<Candidate> {
    let mut candidates = Vec::new();
    for (dir, exists) in dirs {
        let path = if *dir == "/" { format!("/{}", target) } else { format!("{}/{}", dir, target) };
        candidates.push(Candidate { dir: dir.to_string(), path: path, exists: *exists });
    }
    candidates
}

#[test]
fn traverse_up_for_dot_delivery_found() {
    let candidates =
        candidates_for(".delivery", &[("/home/alice/project/src", false), ("/home/alice/project", true), ("/home/alice", false), ("/home", false), ("/", false)]);
    let result = walk_tree_for_path(&candidates);
    assert!(result.is_some());
    let found = result.unwrap();
    assert_eq!(Some(".delivery"), std::path::Path::new(&found).file_name().and_then(|name| name.to_str()));
    assert_eq!(found, "/home/alice/project/.delivery");
}

#[test]
fn traverse_up_for_dot_delivery_not_found() {
    // starting from / we don't expect to find .delivery
    let result = walk_tree_for_path(&candidates_for(".delivery-123", &[("/", false)]));
    assert!(result.is_none());
}

#[test]
fn nearest_existing_path_wins() {
    let candidates = candidates_for(".git/config", &[("/a/b/c", false), ("/a/b", true), ("/a", true), ("/", false)]);
    assert_eq!(find_first_existing(&candidates), Some(1));
    assert_eq!(walk_tree_for_path(&candidates).unwrap(), "/a/b/.git/config");
    assert_eq!(find_first_existing(&Vec::new()), None);
    assert!(walk_tree_for_path(&Vec::new()).is_none());
    let first = candidates_for("x", &[("/a", true)]);
    assert_eq!(find_first_existing(&first), Some(0));
}

#[test]
fn digest_is_the_md5_of_the_content() {
    assert_eq!(content_digest(""), "d41d8cd98f00b204e9800998ecf8427e");
    assert_eq!(content_digest("a"), "0cc175b9c0f1b6a831c399e269772661");
    assert_eq!(content_digest("abc"), "900150983cd24fb0d6963f7d28e17f72");
    assert_eq!(content_digest("message digest"), "f96b697d7cb7938d525a2f31aaf161d0");
}

#[test]
fn digests_differ_where_they_are_not_the_same() {
    let a = content_digest("a");
    let b = content_digest("b");
    assert!(digests_differ(&a, &b));
    assert!(!digests_differ(&a, &content_digest("a")));
}

#[test]
fn file_is_written_where_missing_or_different() {
    assert!(file_needs_updated("{\"version\": \"2\"}", None));
    assert!(file_needs_updated("{\"version\": \"2\"}", Some("{\"version\": \"1\"}")));
    assert!(file_needs_updated("{\"version\": \"2\"}", Some("")));
    assert!(file_needs_updated("a", Some("a\n")));
}

#[test]
fn file_with_the_same_content_is_not_written() {
    assert!(!file_needs_updated("{\"version\": \"2\"}", Some("{\"version\": \"2\"}")));
    assert!(!file_needs_updated("", Some("")));
}

#[test]
fn path_text_is_the_unicode_of_the_path() {
    assert_eq!(path_to_string(Some("/home/alice/.delivery")), "/home/alice/.delivery");
    assert_eq!(path_to_string(std::path::Path::new("relative/dir").to_str()), "relative/dir");
    assert_eq!(path_to_string(Some("")), "");
}

#[test]
fn texts_are_compared_by_their_characters() {
    assert!(same_text("github", "github"));
    assert!(!same_text("github", "bitbucket"));
    assert!(!same_text("github", "githu"));
    assert!(same_text("", ""));
    assert_eq!(chars_of("añb"), vec!['a', 'ñ', 'b']);
    assert_eq!(chars_of(""), Vec::<char>::new());
}

#[test]
fn substring_is_found_wherever_it_stands() {
    assert!(contains("fatal: A branch named 'x' already exists.", "already exists"));
    assert!(contains("abc", "abc"));
    assert!(contains("abc", ""));
    assert!(contains("", ""));
    assert!(contains("abc", "c"));
    assert!(contains("aab", "ab"));
    assert!(!contains("abc", "abcd"));
    assert!(!contains("", "a"));
    assert!(!contains("abc", "ac"));
}

#[test]
fn line_is_found_only_as_a_whole_line() {
    assert!(contains_line("a\nb\nc", "b"));
    assert!(contains_line("a\nb\nc", "a"));
    assert!(contains_line("a\nb\nc", "c"));
    assert!(contains_line("a\nb\n", "b"));
    assert!(contains_line("a\n\nb", ""));
    assert!(contains_line("", ""));
    assert!(!contains_line("ab\nc", "a"));
    assert!(!contains_line("ab\nc", "b"));
    assert!(!contains_line("a\nbc", "b"));
    assert!(!contains_line("abc", ""));
    assert!(!contains_line("", "a"));
}
