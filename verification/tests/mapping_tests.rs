use mzr::mapping::dec_string;
use mzr::mapping::id_map_line;
use mzr::mapping::mapping_plan;

#[test]
fn decimal_rendering_matches_usual_notation() {
    assert_eq!(dec_string(0), "0");
    assert_eq!(dec_string(7), "7");
    assert_eq!(dec_string(10), "10");
    assert_eq!(dec_string(1000), "1000");
    assert_eq!(dec_string(18446744073709551615), "18446744073709551615");
}

#[test]
fn id_map_lines_map_the_outside_id_to_root() {
    assert_eq!(id_map_line(0), "0 0 1\n");
    assert_eq!(id_map_line(1000), "0 1000 1\n");
    assert_eq!(id_map_line(4294967295), "0 4294967295 1\n");
}

#[test]
fn mapping_plan_writes_the_three_files_in_kernel_order() {
    let plan = mapping_plan(1234, 1000, 100);
    assert_eq!(plan.len(), 3);
    assert_eq!(plan[0].path, "/proc/1234/uid_map");
    assert_eq!(plan[0].contents, "0 1000 1\n");
    assert_eq!(plan[1].path, "/proc/1234/setgroups");
    assert_eq!(plan[1].contents, "deny");
    assert_eq!(plan[2].path, "/proc/1234/gid_map");
    assert_eq!(plan[2].contents, "0 100 1\n");
}
