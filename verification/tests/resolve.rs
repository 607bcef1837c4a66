use cmps::{first_readable, template_contents, Candidate, Probe};

fn candidate(path: &str, probe: Probe) -> Candidate {
    Candidate { path: path.to_string(), probe }
}

fn readable(path: &str, bytes: &[u8]) -> Candidate {
    candidate(path, Probe::Readable(bytes.to_vec()))
}

#[test]
fn first_of_two_templates_wins() {
    let candidates = vec![
        readable("/project/.cmps/templates/md", b"# TODO\n"),
        readable("/opt/cmps/templates/md", b"# Defaults\n"),
    ];
    assert_eq!(template_contents(&candidates), Some(b"# TODO\n".to_vec()));
    assert_eq!(first_readable(&candidates), Some(0));
}

#[test]
fn missing_candidates_are_skipped() {
    let candidates = vec![
        candidate("/project/.cmps/templates/py", Probe::Missing),
        candidate("/home/alice/.config/cmps/templates/py", Probe::Missing),
        readable("/opt/cmps/templates/py", b"#!/usr/bin/env python3\n"),
    ];
    assert_eq!(template_contents(&candidates), Some(b"#!/usr/bin/env python3\n".to_vec()));
    assert_eq!(first_readable(&candidates), Some(2));
}

#[test]
fn unreadable_candidate_does_not_end_the_search() {
    let candidates = vec![
        candidate("/project/.cmps/templates/c", Probe::Unreadable),
        readable("/opt/cmps/templates/c", b"int main(void) {}\n"),
        readable("/usr/share/cmps/templates/c", b"/* late */\n"),
    ];
    assert_eq!(template_contents(&candidates), Some(b"int main(void) {}\n".to_vec()));
    assert_eq!(first_readable(&candidates), Some(1));
}

#[test]
fn no_readable_candidate_means_no_template() {
    let candidates = vec![
        candidate("/project/.cmps/templates/txt", Probe::Missing),
        candidate("/home/alice/.config/cmps/templates/txt", Probe::Unreadable),
        candidate("/opt/cmps/templates/txt", Probe::Missing),
    ];
    assert_eq!(template_contents(&candidates), None);
    assert_eq!(first_readable(&candidates), None);
}

#[test]
fn empty_search_path_means_no_template() {
    let candidates: Vec<Candidate> = Vec::new();
    assert_eq!(template_contents(&candidates), None);
    assert_eq!(first_readable(&candidates), None);
}

#[test]
fn empty_template_is_still_a_template() {
    let candidates = vec![
        readable("/project/.cmps/templates/txt", b""),
        readable("/opt/cmps/templates/txt", b"late\n"),
    ];
    assert_eq!(template_contents(&candidates), Some(Vec::new()));
}

#[test]
fn templates_are_copied_byte_for_byte() {
    let bytes = vec![0u8, 159, 146, 150, 255, 10, 13, 0];
    let candidates = vec![candidate("/opt/cmps/templates/bin", Probe::Readable(bytes.clone()))];
    assert_eq!(template_contents(&candidates), Some(bytes));
}

#[test]
fn lower_priority_contents_do_not_matter() {
    let high = readable("/project/.cmps/templates/md", b"# TODO\n");
    let one = vec![high.clone(), readable("/opt/cmps/templates/md", b"one")];
    let other = vec![high.clone(), candidate("/opt/cmps/templates/md", Probe::Missing)];
    let alone = vec![high];
    assert_eq!(template_contents(&one), template_contents(&other));
    assert_eq!(template_contents(&one), template_contents(&alone));
}

#[test]
fn resolving_leaves_the_candidates_alone() {
    let candidates = vec![
        candidate("/a/templates/rs", Probe::Missing),
        readable("/b/templates/rs", b"fn main() {}\n"),
    ];
    let before = candidates.clone();
    let _ = template_contents(&candidates);
    assert_eq!(candidates, before);
}
