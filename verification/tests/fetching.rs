use nvmd::home::Platform;
use nvmd::node::{archive_extension, determine_remote_url, tool_version, Node};
use nvmd::progress::{action_str, bar_width, text_width, Origin, MAX_PROGRESS_WIDTH, MAX_WIDTH};

#[test]
fn distribution_names() {
    let node = Node::new("18.17.1".to_string());
    assert_eq!(node.archive_basename("linux", "x64"), "node-v18.17.1-linux-x64");
    assert_eq!(node.archive_filename("linux", "x64", Platform::Unix), "node-v18.17.1-linux-x64.tar.gz");
    assert_eq!(node.archive_filename("win", "arm64", Platform::Windows), "node-v18.17.1-win-arm64.zip");
    assert_eq!(archive_extension(Platform::Unix), "tar.gz");
    assert_eq!(archive_extension(Platform::Windows), "zip");
    assert_eq!(tool_version("node", "18.17.1"), "node@18.17.1");
}

#[test]
fn remote_url_joins_mirror_version_and_file() {
    assert_eq!(
        determine_remote_url("https://nodejs.org/dist", "18.17.1", "node-v18.17.1-linux-x64.tar.gz"),
        "https://nodejs.org/dist/v18.17.1/node-v18.17.1-linux-x64.tar.gz"
    );
    assert_eq!(determine_remote_url("", "", ""), "/v/");
}

#[test]
fn text_is_at_most_a_hundred_wide() {
    assert_eq!(MAX_WIDTH, 100);
    assert_eq!(text_width(Some(80)), Some(80));
    assert_eq!(text_width(Some(100)), Some(100));
    assert_eq!(text_width(Some(101)), Some(100));
    assert_eq!(text_width(Some(u16::MAX)), Some(100));
    assert_eq!(text_width(Some(0)), Some(0));
    assert_eq!(text_width(None), None);
}

#[test]
fn bar_takes_what_the_frame_leaves() {
    assert_eq!(MAX_PROGRESS_WIDTH, 40);
    // "Fetching" and "node@9.11.2": 8 + 11 + 14 columns of frame
    assert_eq!(bar_width(Some(100), 8, 11), 40);
    assert_eq!(bar_width(Some(73), 8, 11), 40);
    assert_eq!(bar_width(Some(72), 8, 11), 39);
    assert_eq!(bar_width(Some(34), 8, 11), 1);
    assert_eq!(bar_width(Some(33), 8, 11), 0);
    assert_eq!(bar_width(Some(32), 8, 11), 40);
    assert_eq!(bar_width(Some(0), 8, 11), 40);
    assert_eq!(bar_width(None, 8, 11), 40);
    assert_eq!(bar_width(Some(usize::MAX), usize::MAX, usize::MAX), 40);
    assert_eq!(bar_width(Some(usize::MAX), 0, 0), 40);
}

#[test]
fn action_names() {
    assert_eq!(action_str(Origin::Local), "Unpacking");
    assert_eq!(action_str(Origin::Remote), "Fetching");
}
