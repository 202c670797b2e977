use mojo_lsp_locator::fs_model::{FileKind, FsEntry, FsSnapshot};
use mojo_lsp_locator::locator::{binary_name, candidate_paths, language_server_command, locate};

fn snapshot(entries: Vec<(&str, FileKind)>) -> FsSnapshot {
    FsSnapshot {
        entries: entries
            .into_iter()
            .map(|(path, kind)| FsEntry { path: String::from(path), kind })
            .collect(),
    }
}

#[test]
fn candidate_paths_are_exact_and_ordered() {
    let paths = candidate_paths("/home/u");
    let expected = vec![
        "/home/u/.pixi/bin/mojo-lsp-server",
        "/home/u/.local/lib/python3.13/site-packages/max/bin/mojo-lsp-server",
        "/home/u/.local/lib/python3.12/site-packages/max/bin/mojo-lsp-server",
        "/home/u/.local/lib/python3.11/site-packages/max/bin/mojo-lsp-server",
        "/home/u/.modular/pkg/packages.modular.com_mojo/bin/mojo-lsp-server",
    ];
    assert_eq!(paths.len(), expected.len());
    for (got, want) in paths.iter().zip(expected.iter()) {
        assert_eq!(got.as_str(), *want);
    }
}

#[test]
fn binary_name_is_bare_server_name() {
    assert_eq!(binary_name(), "mojo-lsp-server");
}

#[test]
fn pixi_regular_file_is_returned() {
    let fs = snapshot(vec![("/home/u/.pixi/bin/mojo-lsp-server", FileKind::Regular)]);
    assert_eq!(locate(Some("/home/u"), &fs), "/home/u/.pixi/bin/mojo-lsp-server");
}

#[test]
fn pixi_directory_is_skipped() {
    let fs = snapshot(vec![("/home/u/.pixi/bin/mojo-lsp-server", FileKind::Directory)]);
    assert_eq!(locate(Some("/home/u"), &fs), "mojo-lsp-server");
}

#[test]
fn directory_skipped_in_favor_of_lower_priority_file() {
    let fs = snapshot(vec![
        ("/home/u/.pixi/bin/mojo-lsp-server", FileKind::Directory),
        (
            "/home/u/.local/lib/python3.12/site-packages/max/bin/mojo-lsp-server",
            FileKind::Regular,
        ),
    ]);
    assert_eq!(
        locate(Some("/home/u"), &fs),
        "/home/u/.local/lib/python3.12/site-packages/max/bin/mojo-lsp-server"
    );
}

#[test]
fn single_match_is_returned_wherever_it_sits() {
    let fs = snapshot(vec![(
        "/home/u/.modular/pkg/packages.modular.com_mojo/bin/mojo-lsp-server",
        FileKind::Regular,
    )]);
    assert_eq!(
        locate(Some("/home/u"), &fs),
        "/home/u/.modular/pkg/packages.modular.com_mojo/bin/mojo-lsp-server"
    );
}

#[test]
fn highest_priority_match_wins() {
    let fs = snapshot(vec![
        (
            "/home/u/.modular/pkg/packages.modular.com_mojo/bin/mojo-lsp-server",
            FileKind::Regular,
        ),
        ("/home/u/.pixi/bin/mojo-lsp-server", FileKind::Regular),
        (
            "/home/u/.local/lib/python3.11/site-packages/max/bin/mojo-lsp-server",
            FileKind::Regular,
        ),
    ]);
    assert_eq!(locate(Some("/home/u"), &fs), "/home/u/.pixi/bin/mojo-lsp-server");
}

#[test]
fn no_match_falls_back_to_bare_name() {
    let fs = snapshot(vec![]);
    let result = locate(Some("/home/u"), &fs);
    assert_eq!(result, "mojo-lsp-server");
    assert!(!result.is_empty());
}

#[test]
fn unrelated_entries_do_not_match() {
    let fs = snapshot(vec![
        ("/home/u/.pixi/bin/other-tool", FileKind::Regular),
        ("/home/u/.pixi/bin", FileKind::Directory),
    ]);
    assert_eq!(locate(Some("/home/u"), &fs), "mojo-lsp-server");
}

#[test]
fn missing_home_does_not_fail() {
    let fs = snapshot(vec![]);
    let result = locate(None, &fs);
    assert_eq!(result, "mojo-lsp-server");
    assert!(!result.is_empty());
}

#[test]
fn missing_home_is_treated_as_empty_prefix() {
    let fs = snapshot(vec![("/.pixi/bin/mojo-lsp-server", FileKind::Regular)]);
    assert_eq!(locate(None, &fs), "/.pixi/bin/mojo-lsp-server");
    assert_eq!(locate(Some(""), &fs), "/.pixi/bin/mojo-lsp-server");
}

#[test]
fn repeated_calls_yield_identical_results() {
    let fs = snapshot(vec![
        ("/home/u/.pixi/bin/mojo-lsp-server", FileKind::Regular),
        (
            "/home/u/.local/lib/python3.13/site-packages/max/bin/mojo-lsp-server",
            FileKind::Regular,
        ),
    ]);
    let first = locate(Some("/home/u"), &fs);
    let second = locate(Some("/home/u"), &fs);
    assert_eq!(first, second);

    let empty = snapshot(vec![]);
    assert_eq!(locate(None, &empty), locate(None, &empty));
}

#[test]
fn snapshot_probe_distinguishes_kinds() {
    let fs = snapshot(vec![
        ("/a", FileKind::Regular),
        ("/b", FileKind::Directory),
        ("/c", FileKind::Other),
    ]);
    assert!(fs.contains_regular_file(&String::from("/a")));
    assert!(!fs.contains_regular_file(&String::from("/b")));
    assert!(!fs.contains_regular_file(&String::from("/c")));
    assert!(!fs.contains_regular_file(&String::from("/d")));
}

#[test]
fn command_descriptor_has_located_binary_and_empty_args_env() {
    let fs = snapshot(vec![("/home/u/.pixi/bin/mojo-lsp-server", FileKind::Regular)]);
    let cmd = language_server_command(Some("/home/u"), &fs);
    assert_eq!(cmd.command, "/home/u/.pixi/bin/mojo-lsp-server");
    assert!(cmd.args.is_empty());
    assert!(cmd.env.is_empty());

    let cmd = language_server_command(None, &snapshot(vec![]));
    assert_eq!(cmd.command, "mojo-lsp-server");
    assert!(cmd.args.is_empty());
    assert!(cmd.env.is_empty());
}
