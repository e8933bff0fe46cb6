use ratex::splits::{split_rows, subpath_ranges};

#[test]
fn filled_paths_split_at_move_to() {
    let flags = vec![true, false, false, true, false, true];
    assert_eq!(subpath_ranges(&flags, true), vec![(0, 3), (3, 5), (5, 6)]);
    assert_eq!(subpath_ranges(&flags, false), vec![(0, 6)]);
}

#[test]
fn first_command_never_starts_a_new_subpath() {
    assert_eq!(subpath_ranges(&vec![true], true), vec![(0, 1)]);
    assert_eq!(subpath_ranges(&vec![false, false], true), vec![(0, 2)]);
    assert_eq!(subpath_ranges(&vec![], true), vec![(0, 0)]);
    assert_eq!(subpath_ranges(&vec![false, true, true], true), vec![(0, 1), (1, 2), (2, 3)]);
}

#[test]
fn subpaths_are_never_empty() {
    for flags in [vec![true, true, true], vec![false, true, false, true], vec![true]] {
        for (start, end) in subpath_ranges(&flags, true) {
            assert!(start < end);
        }
    }
}

#[test]
fn rows_split_at_line_breaks() {
    let flags = vec![false, false, true, false, true, true, false];
    assert_eq!(split_rows(&flags), vec![(0, 2), (3, 4), (5, 5), (6, 7)]);
    assert_eq!(split_rows(&vec![]), vec![(0, 0)]);
    assert_eq!(split_rows(&vec![true]), vec![(0, 0), (1, 1)]);
    assert_eq!(split_rows(&vec![false, false]), vec![(0, 2)]);
}
