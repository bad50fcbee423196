use gadgets::listing::{query, split_lines};
use gadgets::workspace::{
    area_from_groups, pair_from_groups, parse_active, parse_area, parse_index, parse_pair,
    Workspace, WorkspaceParseError,
};

fn plain(idx: usize, active: bool, name: &str) -> Workspace {
    Workspace { active, idx, dg: None, vp: None, available_area: None, name: name.to_string() }
}

#[test]
fn reads_an_active_workspace_line() {
    let w = Workspace::from_str("0  * DG: 3840x1080  VP: 0,0  WA: 0,27 3840x1053  Main").unwrap();
    assert!(w.active);
    assert_eq!(w.idx, 0);
    assert_eq!(w.dg, Some((3840, 1080)));
    assert_eq!(w.vp, Some((0, 0)));
    assert_eq!(w.available_area, Some((0, 27, 3840, 1053)));
    assert_eq!(w.name, "Main");
}

#[test]
fn reads_an_inactive_workspace_line_without_values() {
    let w = Workspace::from_str("3  - DG: N/A  VP: N/A  WA: N/A  Workspace 4").unwrap();
    assert_eq!(w, plain(3, false, "Workspace 4"));
}

#[test]
fn the_name_may_be_empty_and_may_hold_spaces() {
    let w = Workspace::from_str("1  - DG: N/A  VP: N/A  WA: N/A  ").unwrap();
    assert_eq!(w.name, "");
    let w = Workspace::from_str("1  - DG: N/A  VP: N/A  WA: N/A  a  b c").unwrap();
    assert_eq!(w.name, "a  b c");
}

#[test]
fn a_line_of_another_shape_is_missing_fields() {
    assert_eq!(Workspace::from_str("hello").unwrap_err(), WorkspaceParseError::FieldMissing);
    assert_eq!(Workspace::from_str("").unwrap_err(), WorkspaceParseError::FieldMissing);
    assert_eq!(
        Workspace::from_str("0  + DG: N/A  VP: N/A  WA: N/A  x").unwrap_err(),
        WorkspaceParseError::FieldMissing
    );
    assert_eq!(
        Workspace::from_str("0  * DG: N/A  VP: N/A  WA: N/A").unwrap_err(),
        WorkspaceParseError::FieldMissing
    );
    assert_eq!(
        Workspace::from_str("0  * DG: N/A  VP: N/A  WA: N/A  a\nb").unwrap_err(),
        WorkspaceParseError::FieldMissing
    );
}

#[test]
fn a_number_too_large_is_an_incorrect_field() {
    let line = "99999999999999999999999999  * DG: N/A  VP: N/A  WA: N/A  x";
    assert_eq!(Workspace::from_str(line).unwrap_err(), WorkspaceParseError::IncorrectFieldType);
    let line = "0  * DG: 99999999999999999999999999x1  VP: N/A  WA: N/A  x";
    assert_eq!(Workspace::from_str(line).unwrap_err(), WorkspaceParseError::IncorrectFieldType);
    let line = "0  * DG: N/A  VP: 1,99999999999999999999999999  WA: N/A  x";
    assert_eq!(Workspace::from_str(line).unwrap_err(), WorkspaceParseError::IncorrectFieldType);
}

#[test]
fn digits_of_another_script_are_an_incorrect_field() {
    let line = "\u{0663}  * DG: N/A  VP: N/A  WA: N/A  x";
    assert_eq!(Workspace::from_str(line).unwrap_err(), WorkspaceParseError::IncorrectFieldType);
}

#[test]
fn an_area_split_by_a_tab_is_an_incorrect_field() {
    let line = "0  * DG: N/A  VP: N/A  WA: 0,0\t10x10  x";
    assert_eq!(Workspace::from_str(line).unwrap_err(), WorkspaceParseError::IncorrectFieldType);
}

#[test]
fn the_largest_index_is_read() {
    let line = format!("{}  * DG: N/A  VP: N/A  WA: N/A  x", usize::MAX);
    assert_eq!(Workspace::from_str(&line).unwrap().idx, usize::MAX);
    let line = format!("0  * DG: {}x0  VP: N/A  WA: N/A  x", isize::MAX);
    assert_eq!(Workspace::from_str(&line).unwrap().dg, Some((isize::MAX, 0)));
}

#[test]
fn parts_are_read_one_by_one() {
    assert_eq!(parse_index("12"), Ok(12));
    assert_eq!(parse_index("012"), Ok(12));
    assert_eq!(parse_index("+12"), Err(WorkspaceParseError::IncorrectFieldType));
    assert_eq!(parse_index(""), Err(WorkspaceParseError::IncorrectFieldType));
    assert_eq!(parse_active("*"), Ok(true));
    assert_eq!(parse_active("-"), Ok(false));
    assert_eq!(parse_active("**"), Err(WorkspaceParseError::IncorrectFieldType));
    assert_eq!(parse_pair("N/A"), Ok(None));
    assert_eq!(parse_pair("1920x1080"), Ok(Some((1920, 1080))));
    assert_eq!(parse_pair("3,4"), Ok(Some((3, 4))));
    assert_eq!(parse_pair("n/a"), Err(WorkspaceParseError::IncorrectFieldType));
    assert_eq!(parse_area("N/A"), Ok(None));
    assert_eq!(parse_area("1,2 3x4"), Ok(Some((1, 2, 3, 4))));
    assert_eq!(parse_area("1,2  3x4"), Err(WorkspaceParseError::IncorrectFieldType));
}

#[test]
fn groups_are_turned_into_numbers() {
    let s = |t: &str| Some(t.to_string());
    assert_eq!(pair_from_groups(&Some(vec![s("7x8"), s("7"), s("8")])), Some((7, 8)));
    assert_eq!(pair_from_groups(&Some(vec![s("7x8"), s("7"), None])), None);
    assert_eq!(pair_from_groups(&Some(vec![s("7x8"), s("7")])), None);
    assert_eq!(pair_from_groups(&Some(vec![s("7x8"), s("7"), s("x")])), None);
    assert_eq!(pair_from_groups(&None), None);
    assert_eq!(
        area_from_groups(&Some(vec![s(""), s("1"), s("2"), s("3"), s("4")])),
        Some((1, 2, 3, 4))
    );
    assert_eq!(area_from_groups(&Some(vec![s(""), s("1"), s("2"), s("3")])), None);
}

#[test]
fn groups_are_turned_into_a_workspace() {
    let s = |t: &str| Some(t.to_string());
    let groups = vec![s("whole"), s("2"), s("*"), s("N/A"), s("5,6"), s("N/A"), s("two")];
    let w = Workspace::from_groups(&groups).unwrap();
    assert_eq!(
        w,
        Workspace {
            active: true,
            idx: 2,
            dg: None,
            vp: Some((5, 6)),
            available_area: None,
            name: "two".to_string()
        }
    );
    let groups = vec![s("whole"), s("2"), s("*"), s("N/A"), s("5,6"), s("N/A")];
    assert_eq!(Workspace::from_groups(&groups).unwrap().name, "");
    let groups = vec![s("whole"), s("2"), None, s("N/A"), s("5,6"), s("N/A")];
    assert_eq!(Workspace::from_groups(&groups).unwrap_err(), WorkspaceParseError::FieldMissing);
    let groups = vec![s("whole"), s("x"), None, s("N/A"), s("5,6"), s("N/A")];
    assert_eq!(
        Workspace::from_groups(&groups).unwrap_err(),
        WorkspaceParseError::IncorrectFieldType
    );
    let groups = vec![s("whole")];
    assert_eq!(Workspace::from_groups(&groups).unwrap_err(), WorkspaceParseError::FieldMissing);
}

#[test]
fn a_workspace_is_written_as_a_line() {
    let w = Workspace {
        active: true,
        idx: 0,
        dg: Some((3840, 1080)),
        vp: Some((0, 0)),
        available_area: Some((0, 27, 3840, 1053)),
        name: "Main".to_string(),
    };
    assert_eq!(w.to_string(), "0  * DG: 3840x1080  VP: 0x0  WA: 0,27 3840x1053  Main");
    assert_eq!(plain(12, false, "b").to_string(), "12  - DG: N/A  VP: N/A  WA: N/A  b");
}

#[test]
fn negative_and_extreme_numbers_are_written() {
    let w = Workspace {
        active: false,
        idx: usize::MAX,
        dg: Some((-5, isize::MIN)),
        vp: Some((isize::MAX, 10)),
        available_area: Some((-1, 0, 100, -100)),
        name: String::new(),
    };
    let expected = format!(
        "{}  - DG: -5x{}  VP: {}x10  WA: -1,0 100x-100  ",
        usize::MAX,
        isize::MIN,
        isize::MAX
    );
    assert_eq!(w.to_string(), expected);
}

#[test]
fn a_line_without_values_survives_writing_and_reading() {
    let w = plain(7, true, "seven");
    assert_eq!(Workspace::from_str(&w.to_string()).unwrap(), w);
}

#[test]
fn a_line_is_parsed_like_any_other_value() {
    let w: Workspace = "5  - DG: 800x600  VP: N/A  WA: N/A  five".parse().unwrap();
    assert_eq!(w.idx, 5);
    assert_eq!(w.dg, Some((800, 600)));
    let e = "five".parse::<Workspace>().unwrap_err();
    assert_eq!(e, WorkspaceParseError::FieldMissing);
}

#[test]
fn errors_are_put_in_words() {
    assert_eq!(WorkspaceParseError::FieldMissing.to_string(), "Missing field(s)");
    assert_eq!(WorkspaceParseError::IncorrectFieldType.to_string(), "Field type(s) incorrect");
}

#[test]
fn a_text_is_cut_at_every_line_break() {
    assert_eq!(split_lines(""), vec![""]);
    assert_eq!(split_lines("a"), vec!["a"]);
    assert_eq!(split_lines("a\n"), vec!["a", ""]);
    assert_eq!(split_lines("\na"), vec!["", "a"]);
    assert_eq!(split_lines("a\n\nb\u{00e9}\nc"), vec!["a", "", "b\u{00e9}", "c"]);
    let text = "x\ny\r\nz\n";
    assert_eq!(split_lines(text), text.split("\n").collect::<Vec<&str>>());
}

#[test]
fn a_list_is_read_line_by_line() {
    let output = "0  * DG: 1920x1080  VP: 0,0  WA: 0,0 1920x1080  one\n\
                  1  - DG: 1920x1080  VP: N/A  WA: 0,0 1920x1080  two\n";
    let list = query(output).unwrap();
    assert_eq!(list.len(), 2);
    assert_eq!(list[0].name, "one");
    assert!(list[0].active);
    assert_eq!(list[1].idx, 1);
    assert_eq!(list[1].vp, None);
    assert_eq!(query("").unwrap(), Vec::<Workspace>::new());
    assert_eq!(query("\n\n").unwrap(), Vec::<Workspace>::new());
}

#[test]
fn the_first_bad_line_decides_the_error() {
    let output = "0  * DG: N/A  VP: N/A  WA: N/A  one\n\
                  99999999999999999999999  - DG: N/A  VP: N/A  WA: N/A  two\n\
                  junk\n";
    assert_eq!(query(output).unwrap_err(), WorkspaceParseError::IncorrectFieldType);
    let output = "junk\n99999999999999999999999  - DG: N/A  VP: N/A  WA: N/A  two\n";
    assert_eq!(query(output).unwrap_err(), WorkspaceParseError::FieldMissing);
}
