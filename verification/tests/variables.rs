use env_docs::error::ValidationError;
use env_docs::variables::{State, Value, Variable};

fn accepted(raw: &str, description: &str) -> Value {
    Value::new(raw.to_string(), description.to_string())
}

fn variable(
    name: &str,
    description: &str,
    values: Vec<Value>,
    default: &str,
    state: Option<State>,
) -> Variable {
    Variable::new(name.to_string(), description.to_string(), values, default.to_string(), state)
}

fn port(default: &str, state: Option<State>) -> Variable {
    variable(
        "PORT",
        "Listen port",
        vec![accepted("8080", "default port"), accepted("9090", "alt port")],
        default,
        state,
    )
}

#[test]
fn getters_return_the_fields() {
    let v = port("8080", Some(State::Deprecated));
    assert_eq!(v.get_name(), "PORT");
    assert_eq!(v.get_description(), "Listen port");
    assert_eq!(v.get_default_unformatted(), "8080");
    assert_eq!(v.get_state(), Some(State::Deprecated));
    assert_eq!(v.values().len(), 2);
    assert_eq!(v.values()[0].get_actual_value_unformatted(), "8080");
    assert_eq!(v.values()[1].get_actual_value_unformatted(), "9090");
    assert_eq!(v.values()[1].get_description(), "alt port");
}

#[test]
fn state_is_told_apart() {
    assert!(!port("8080", None).is_deprecated());
    assert!(!port("8080", None).is_removed());
    assert!(port("8080", Some(State::Deprecated)).is_deprecated());
    assert!(!port("8080", Some(State::Deprecated)).is_removed());
    assert!(port("8080", Some(State::Removed)).is_removed());
    assert!(!port("8080", Some(State::Removed)).is_deprecated());
}

#[test]
fn heading_of_an_active_variable() {
    assert_eq!(port("8080", None).format_heading(), "\n##### `PORT`\n\n");
}

#[test]
fn heading_of_a_deprecated_variable() {
    assert_eq!(
        port("8080", Some(State::Deprecated)).format_heading(),
        "\n##### `PORT` [DEPRECATED]\n\n"
    );
}

#[test]
fn heading_of_a_removed_variable_ends_with_one_line_feed() {
    assert_eq!(port("8080", Some(State::Removed)).format_heading(), "\n##### `PORT` [REMOVED]\n");
}

#[test]
fn heading_uses_the_name_as_it_stands() {
    let v = variable("DB_URL__Ünï", "", vec![], "", None);
    assert_eq!(v.format_heading(), "\n##### `DB_URL__Ünï`\n\n");
}

#[test]
fn description_without_line_feed_gets_two() {
    assert_eq!(port("8080", None).format_description(), "Listen port\n\n");
}

#[test]
fn description_with_one_line_feed_gets_one_more() {
    let v = variable("A", "text\n", vec![], "", None);
    assert_eq!(v.format_description(), "text\n\n");
}

#[test]
fn description_with_two_line_feeds_is_kept() {
    let v = variable("A", "text\n\n", vec![], "", None);
    assert_eq!(v.format_description(), "text\n\n");
}

#[test]
fn description_with_three_line_feeds_is_kept() {
    let v = variable("A", "text\n\n\n", vec![], "", None);
    assert_eq!(v.format_description(), "text\n\n\n");
}

#[test]
fn empty_description_becomes_an_empty_line() {
    let v = variable("A", "", vec![], "", None);
    assert_eq!(v.format_description(), "\n\n");
}

#[test]
fn description_of_one_line_feed_becomes_two() {
    let v = variable("A", "\n", vec![], "", None);
    assert_eq!(v.format_description(), "\n\n");
}

#[test]
fn description_beyond_ascii_is_closed_by_an_empty_line() {
    let v = variable("A", "Größe des Puffers\n", vec![], "", None);
    assert_eq!(v.format_description(), "Größe des Puffers\n\n");
}

#[test]
fn double_newline_ending_is_reached_from_any_ending() {
    for (given, expected) in [
        ("", "\n\n"),
        ("a", "a\n\n"),
        ("a\n", "a\n\n"),
        ("a\n\n", "a\n\n"),
        ("a\n\n\n", "a\n\n\n"),
        ("\n", "\n\n"),
        ("\n\n", "\n\n"),
        ("a\nb", "a\nb\n\n"),
        ("a\n\nb\n", "a\n\nb\n\n"),
    ] {
        let mut text = given.to_string();
        Variable::check_double_newline_ending(&mut text);
        assert_eq!(text, expected);
    }
}

#[test]
fn default_that_is_set_is_shown_as_inline_code() {
    assert_eq!(port("8080", None).get_default_formatted(), "`8080`");
    assert_eq!(port("8080", None).format_default(), "Default: `8080`\n\n");
}

#[test]
fn default_that_is_unset_is_shown_in_words() {
    assert_eq!(port("", None).get_default_formatted(), "unset (i.e. unused)");
    assert_eq!(port("", None).format_default(), "Default: unset (i.e. unused)\n\n");
}

#[test]
fn default_for_env_is_the_raw_default() {
    assert_eq!(port("8080", None).get_default_for_env(), "8080");
    assert_eq!(port("", None).get_default_for_env(), "");
}

#[test]
fn env_line_of_a_set_default() {
    assert_eq!(port("8080", None).format_for_env(), "PORT=8080\n\n");
}

#[test]
fn env_line_of_an_unset_default() {
    assert_eq!(port("", None).format_for_env(), "PORT=\n\n");
}

#[test]
fn env_line_is_never_wrapped_in_markup() {
    let v = variable("GLOB", "", vec![accepted("*.log", "logs")], "*.log", None);
    assert_eq!(v.format_for_env(), "GLOB=*.log\n\n");
}

#[test]
fn values_are_listed_in_their_order() {
    assert_eq!(
        port("8080", None).render_values('-'),
        "- `8080` => default port\n- `9090` => alt port\n"
    );
    let swapped = variable(
        "PORT",
        "",
        vec![accepted("9090", "alt port"), accepted("8080", "default port")],
        "8080",
        None,
    );
    assert_eq!(swapped.render_values('-'), "- `9090` => alt port\n- `8080` => default port\n");
}

#[test]
fn values_are_listed_with_the_given_bullet() {
    assert_eq!(
        port("8080", None).render_values('*'),
        "* `8080` => default port\n* `9090` => alt port\n"
    );
}

#[test]
fn no_values_give_no_lines() {
    assert_eq!(variable("A", "", vec![], "", None).render_values('-'), "");
}

#[test]
fn values_with_sentinels_are_listed() {
    let v = variable(
        "HOST",
        "",
        vec![accepted("", "not bound"), accepted("*", "any host"), accepted("::1", "loopback\n")],
        "",
        None,
    );
    assert_eq!(
        v.render_values('-'),
        "- unset => not bound\n- \\* => any host\n- `::1` => loopback\n"
    );
}

#[test]
fn default_among_the_values_is_valid() {
    assert_eq!(port("8080", None).validate(), Ok(()));
    assert_eq!(port("9090", None).validate(), Ok(()));
    assert_eq!(port("9090", Some(State::Deprecated)).validate(), Ok(()));
}

#[test]
fn unset_default_is_valid_whatever_the_values() {
    assert_eq!(port("", None).validate(), Ok(()));
    assert_eq!(variable("A", "", vec![], "", None).validate(), Ok(()));
    assert_eq!(variable("A", "", vec![], "", Some(State::Deprecated)).validate(), Ok(()));
}

#[test]
fn default_missing_from_the_values_is_rejected() {
    assert_eq!(
        port("3000", None).validate(),
        Err(ValidationError::DefaultNotInValues {
            name: "PORT".to_string(),
            default: "3000".to_string(),
            values: vec!["8080".to_string(), "9090".to_string()],
        })
    );
}

#[test]
fn default_is_compared_exactly() {
    assert!(port("808", None).validate().is_err());
    assert!(port("80800", None).validate().is_err());
    assert!(port(" 8080", None).validate().is_err());
    assert!(port("8080 ", None).validate().is_err());
    assert!(port("default port", None).validate().is_err());
}

#[test]
fn default_without_any_values_is_rejected() {
    assert_eq!(
        variable("A", "", vec![], "x", None).validate(),
        Err(ValidationError::DefaultNotInValues {
            name: "A".to_string(),
            default: "x".to_string(),
            values: vec![],
        })
    );
}

#[test]
fn arbitrary_default_is_rejected() {
    assert_eq!(
        port("*", None).validate(),
        Err(ValidationError::ArbitraryDefault { name: "PORT".to_string(), default: "*".to_string() })
    );
}

#[test]
fn arbitrary_default_is_rejected_even_if_listed() {
    let v = variable("HOST", "", vec![accepted("*", "any host")], "*", None);
    assert_eq!(
        v.validate(),
        Err(ValidationError::ArbitraryDefault { name: "HOST".to_string(), default: "*".to_string() })
    );
    let deprecated = variable("HOST", "", vec![accepted("*", "any")], "*", Some(State::Deprecated));
    assert!(deprecated.validate().is_err());
}

#[test]
fn deprecated_variable_is_checked_like_an_active_one() {
    assert!(port("3000", Some(State::Deprecated)).validate().is_err());
    assert!(port("*", Some(State::Deprecated)).validate().is_err());
}

#[test]
fn removed_variable_is_never_rejected() {
    assert_eq!(port("3000", Some(State::Removed)).validate(), Ok(()));
    assert_eq!(port("*", Some(State::Removed)).validate(), Ok(()));
    assert_eq!(port("", Some(State::Removed)).validate(), Ok(()));
    assert_eq!(variable("OLD", "", vec![], "gone", Some(State::Removed)).validate(), Ok(()));
}

#[test]
fn rejected_values_come_in_listed_order_with_repeats() {
    let v = variable(
        "MODE",
        "",
        vec![accepted("b", ""), accepted("a", ""), accepted("b", ""), accepted("", "")],
        "c",
        None,
    );
    match v.validate() {
        Err(ValidationError::DefaultNotInValues { values, .. }) => {
            assert_eq!(values, vec!["b", "a", "b", ""]);
        }
        other => panic!("unexpected outcome: {:?}", other),
    }
}

#[test]
fn states_compare_as_declared() {
    assert!(State::Deprecated < State::Removed);
    assert_eq!(State::Removed, State::Removed);
    assert_ne!(State::Deprecated, State::Removed);
}
