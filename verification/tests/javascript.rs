use dropshipping::javascript::get_rhs_object;

#[test]
fn test_get_rhs_object() {
    let variable_name = "let b = ";
    let script = r#"
        let a = 123
        let b = {
            one: {
                two: 2
            }
        }
        let c = 789
        let b = {
            three: {
                four: "four"
            }
        }
    "#;
    let rhs_list = get_rhs_object(variable_name, script, 2);
    assert_eq!(rhs_list.len(), 2);
    assert_eq!(
        rhs_list[0].replace(" ", "").replace("\n", ""),
        "{one:{two:2}}".to_string()
    );
    assert_eq!(
        rhs_list[1].replace(" ", "").replace("\n", ""),
        "{three:{four:\"four\"}}".to_string()
    );
}

#[test]
fn rhs_object_limit_stops_the_search() {
    let rhs_list = get_rhs_object("x=", "x={1} x={2} x={3}", 2);
    assert_eq!(rhs_list, vec!["{1}".to_string(), "{2}".to_string()]);
}

#[test]
fn rhs_object_without_closing_brace_runs_to_the_end() {
    let rhs_list = get_rhs_object("x=", "x={a{b}", 5);
    assert_eq!(rhs_list, vec!["{a{b}".to_string()]);
}

#[test]
fn rhs_object_missing_name_or_brace() {
    assert!(get_rhs_object("y=", "x={1}", 3).is_empty());
    assert!(get_rhs_object("x=", "x=1", 3).is_empty());
    assert!(get_rhs_object("x=", "x={1}", 0).is_empty());
}
