use tabshot::partition::{chunk_size, partition, plan_chunks, targets_between};
use tabshot::target::{derive_filename, replace_scheme_separator, replace_slashes, Target};
use tabshot::urls::{keep_parsed, valid_urls};

fn strings(items: &[&str]) -> Vec<String> {
    items.iter().map(|s| s.to_string()).collect()
}

fn urls_of(chunks: &Vec<Vec<Target>>) -> Vec<Vec<String>> {
    chunks
        .iter()
        .map(|c| c.iter().map(|t| t.url().to_string()).collect())
        .collect()
}

#[test]
fn filename_for_https_path() {
    assert_eq!(derive_filename("https://example.com/path"), "https-example.com_path.png");
}

#[test]
fn filename_replaces_every_slash() {
    assert_eq!(derive_filename("http://a.b/c/d/"), "http-a.b_c_d_.png");
    assert_eq!(derive_filename(""), ".png");
    assert_eq!(derive_filename("plain"), "plain.png");
}

#[test]
fn scheme_separator_is_replaced_from_the_left() {
    assert_eq!(replace_scheme_separator("a://b://c"), "a-b-c");
    assert_eq!(replace_scheme_separator(":///"), "-/");
    assert_eq!(replace_scheme_separator("://"), "-");
    assert_eq!(replace_scheme_separator(":/"), ":/");
    assert_eq!(replace_scheme_separator("a:/:/b"), "a:/:/b");
}

#[test]
fn slashes_become_underscores() {
    assert_eq!(replace_slashes("/a/b/"), "_a_b_");
    assert_eq!(replace_slashes("none"), "none");
    assert_eq!(replace_slashes(""), "");
}

#[test]
fn filename_keeps_non_ascii_characters() {
    assert_eq!(derive_filename("https://exämple.com/ü"), "https-exämple.com_ü.png");
}

#[test]
fn target_holds_url_and_filename() {
    let t = Target::new("https://example.com/path");
    assert_eq!(t.url(), "https://example.com/path");
    assert_eq!(t.filename(), "https-example.com_path.png");
}

#[test]
fn malformed_candidate_is_dropped() {
    let kept = valid_urls(&strings(&["not a url"]));
    assert!(kept.is_empty());
    let chunks = plan_chunks(&strings(&["not a url"]), 4);
    assert!(chunks.is_empty());
}

#[test]
fn malformed_candidates_leave_order_of_the_rest() {
    let kept = valid_urls(&strings(&[
        "https://one.example/",
        "not a url",
        "http://two.example/x",
        "",
        "ftp://three.example/",
    ]));
    assert_eq!(
        kept,
        strings(&["https://one.example/", "http://two.example/x", "ftp://three.example/"])
    );
}

#[test]
fn parsed_url_is_normalized() {
    let kept = valid_urls(&strings(&["https://EXAMPLE.com", "HTTP://a.b/c/../d"]));
    assert_eq!(kept, strings(&["https://example.com/", "http://a.b/d"]));
}

#[test]
fn duplicates_are_kept() {
    let kept = valid_urls(&strings(&["https://a.example/", "https://a.example/"]));
    assert_eq!(kept, strings(&["https://a.example/", "https://a.example/"]));
}

#[test]
fn keep_parsed_pushes_or_leaves() {
    let mut kept = strings(&["x"]);
    keep_parsed(&mut kept, None);
    assert_eq!(kept, strings(&["x"]));
    keep_parsed(&mut kept, Some("y".to_string()));
    assert_eq!(kept, strings(&["x", "y"]));
}

#[test]
fn chunk_size_rounds_up() {
    assert_eq!(chunk_size(0, 4), 0);
    assert_eq!(chunk_size(1, 4), 1);
    assert_eq!(chunk_size(4, 4), 1);
    assert_eq!(chunk_size(5, 4), 2);
    assert_eq!(chunk_size(10, 4), 3);
    assert_eq!(chunk_size(10, 1), 10);
    assert_eq!(chunk_size(usize::MAX, 1), usize::MAX);
    assert_eq!(chunk_size(usize::MAX, 2), usize::MAX / 2 + 1);
}

#[test]
fn targets_between_takes_the_range() {
    let urls = strings(&["a", "b", "c", "d"]);
    let got: Vec<String> =
        targets_between(&urls, 1, 3).iter().map(|t| t.url().to_string()).collect();
    assert_eq!(got, strings(&["b", "c"]));
    assert!(targets_between(&urls, 2, 2).is_empty());
}

#[test]
fn ten_urls_on_four_tabs() {
    let urls = strings(&["0", "1", "2", "3", "4", "5", "6", "7", "8", "9"]);
    let chunks = partition(&urls, 4);
    assert_eq!(
        urls_of(&chunks),
        vec![
            strings(&["0", "1", "2"]),
            strings(&["3", "4", "5"]),
            strings(&["6", "7", "8"]),
            strings(&["9"]),
        ]
    );
}

#[test]
fn five_urls_on_four_tabs_use_three() {
    let urls = strings(&["0", "1", "2", "3", "4"]);
    let chunks = partition(&urls, 4);
    assert_eq!(
        urls_of(&chunks),
        vec![strings(&["0", "1"]), strings(&["2", "3"]), strings(&["4"])]
    );
}

#[test]
fn more_tabs_than_urls() {
    let urls = strings(&["0", "1"]);
    let chunks = partition(&urls, 8);
    assert_eq!(urls_of(&chunks), vec![strings(&["0"]), strings(&["1"])]);
}

#[test]
fn no_urls_no_chunks() {
    let chunks = partition(&Vec::new(), 4);
    assert!(chunks.is_empty());
}

#[test]
fn single_tab_gets_everything_in_order() {
    let urls = strings(&["a", "b", "c"]);
    let chunks = partition(&urls, 1);
    assert_eq!(urls_of(&chunks), vec![strings(&["a", "b", "c"])]);
}

#[test]
fn chunks_rejoin_and_fit_the_tabs() {
    for total in 0..40usize {
        let urls: Vec<String> = (0..total).map(|i| format!("u{}", i)).collect();
        for tabs in 1..12usize {
            let chunks = partition(&urls, tabs);
            assert!(chunks.len() <= tabs);
            assert!(chunks.iter().all(|c| !c.is_empty()));
            let joined: Vec<String> =
                chunks.iter().flat_map(|c| c.iter().map(|t| t.url().to_string())).collect();
            assert_eq!(joined, urls);
        }
    }
}

#[test]
fn planning_twice_gives_the_same_chunks() {
    let candidates = strings(&[
        "https://a.example/",
        "bad",
        "https://b.example/",
        "https://c.example/",
        "https://d.example/",
        "https://e.example/",
    ]);
    let first = urls_of(&plan_chunks(&candidates, 2));
    let second = urls_of(&plan_chunks(&candidates, 2));
    assert_eq!(first, second);
    assert_eq!(
        first,
        vec![
            strings(&["https://a.example/", "https://b.example/", "https://c.example/"]),
            strings(&["https://d.example/", "https://e.example/"]),
        ]
    );
}

#[test]
fn chunk_targets_carry_their_filenames() {
    let chunks = plan_chunks(&strings(&["https://example.com/path"]), 4);
    assert_eq!(chunks.len(), 1);
    assert_eq!(chunks[0].len(), 1);
    assert_eq!(chunks[0][0].filename(), "https-example.com_path.png");
}
