use datagen_tui::app::App;
use datagen_tui::events::Effect;
use datagen_tui::events::InputEvent;
use datagen_tui::keys::Key;
use datagen_tui::sections::Focus;
use datagen_tui::sections::Section;

fn fresh_app() -> App {
    App::new(None, String::new(), String::new())
}

fn goto(app: &mut App, sidebar_index: usize, section: Section) {
    app.sidebar_index = sidebar_index;
    app.current_section = section;
    app.focus = Focus::Main;
}

#[test]
fn sidebar_moves_without_wrapping() {
    let mut app = fresh_app();
    app.navigate_up();
    assert_eq!(app.sidebar_index, 0);
    assert_eq!(app.current_section, Section::Model);
    app.navigate_down();
    assert_eq!(app.sidebar_index, 1);
    assert_eq!(app.current_section, Section::Quantity);
    for _ in 0..20 {
        app.navigate_down();
    }
    assert_eq!(app.sidebar_index, 8);
    assert_eq!(app.current_section, Section::Settings);
}

#[test]
fn right_enters_main_left_returns() {
    let mut app = fresh_app();
    assert_eq!(app.focus, Focus::Sidebar);
    let eff = app.handle_event(InputEvent::Right);
    assert!(matches!(eff, Effect::Nothing));
    assert_eq!(app.focus, Focus::Main);
    app.handle_event(InputEvent::Left);
    assert_eq!(app.focus, Focus::Sidebar);
}

#[test]
fn model_selection_wraps_both_ways() {
    let mut app = fresh_app();
    goto(&mut app, 0, Section::Model);
    app.navigate_up();
    assert_eq!(app.selected_model_index, 3);
    app.navigate_down();
    assert_eq!(app.selected_model_index, 0);
    app.navigate_down();
    assert_eq!(app.selected_model_index, 1);
}

#[test]
fn quantity_cursor_clamps_and_steps_by_five() {
    let mut app = fresh_app();
    goto(&mut app, 1, Section::Quantity);
    app.navigate_up();
    assert_eq!(app.quantity_field_index, 0);
    app.handle_event(InputEvent::AdjustUp);
    assert_eq!(app.total_files, 30);
    app.handle_event(InputEvent::AdjustDown);
    assert_eq!(app.total_files, 25);
    for _ in 0..200 {
        app.handle_event(InputEvent::AdjustUp);
    }
    assert_eq!(app.total_files, 500);
    for _ in 0..200 {
        app.handle_event(InputEvent::AdjustDown);
    }
    assert_eq!(app.total_files, 1);
    app.navigate_down();
    app.navigate_down();
    app.navigate_down();
    assert_eq!(app.quantity_field_index, 3);
    app.navigate_down();
    assert_eq!(app.quantity_field_index, 3);
}

#[test]
fn reply_and_forward_share_a_budget_of_one_hundred() {
    let mut app = fresh_app();
    goto(&mut app, 1, Section::Quantity);
    app.quantity_field_index = 2;
    for _ in 0..10 {
        app.increment_quantity();
    }
    assert_eq!(app.reply_percent, 90);
    assert_eq!(app.forward_percent, 10);
    app.quantity_field_index = 3;
    app.increment_quantity();
    assert_eq!(app.forward_percent, 10);
    app.quantity_field_index = 2;
    app.decrement_quantity();
    assert_eq!(app.reply_percent, 85);
    app.quantity_field_index = 3;
    app.increment_quantity();
    assert_eq!(app.forward_percent, 15);
}

#[test]
fn topic_panels_escalate_at_boundaries() {
    let mut app = fresh_app();
    goto(&mut app, 2, Section::Topics);
    app.navigate_down();
    assert_eq!(app.topic_panel, 0);
    app.set_generated_topics(vec!["a".to_string(), "b".to_string()]);
    app.selected_topics.push("s".to_string());
    app.navigate_down();
    assert_eq!(app.topic_panel, 1);
    assert_eq!(app.topic_cursor, 0);
    app.navigate_down();
    assert_eq!(app.topic_cursor, 1);
    app.navigate_down();
    assert_eq!(app.topic_panel, 2);
    assert_eq!(app.selected_topic_cursor, 0);
    app.navigate_down();
    assert_eq!(app.selected_topic_cursor, 0);
    app.navigate_up();
    assert_eq!(app.topic_panel, 1);
    app.navigate_up();
    assert_eq!(app.topic_cursor, 0);
    app.navigate_up();
    assert_eq!(app.topic_panel, 0);
}

#[test]
fn moving_cursor_topic_to_selected() {
    let mut app = fresh_app();
    goto(&mut app, 2, Section::Topics);
    app.set_generated_topics(vec!["Budget Review".to_string(), "Q3 Planning".to_string()]);
    app.topic_panel = 1;
    app.topic_cursor = 1;
    let eff = app.handle_event(InputEvent::Activate);
    assert!(matches!(eff, Effect::Nothing));
    assert_eq!(app.generated_topics, vec!["Budget Review".to_string()]);
    assert_eq!(app.selected_topics, vec!["Q3 Planning".to_string()]);
    assert_eq!(app.topic_cursor, 0);
    assert_eq!(app.topic_panel, 1);
}

#[test]
fn moving_last_topic_hands_focus_to_selected() {
    let mut app = fresh_app();
    goto(&mut app, 2, Section::Topics);
    app.set_generated_topics(vec!["only".to_string()]);
    app.topic_panel = 1;
    app.topic_cursor = 0;
    app.select_topic();
    assert!(app.generated_topics.is_empty());
    assert_eq!(app.selected_topics, vec!["only".to_string()]);
    assert_eq!(app.topic_panel, 2);
}

#[test]
fn moving_topic_back_restores_membership() {
    let mut app = fresh_app();
    goto(&mut app, 2, Section::Topics);
    app.set_generated_topics(vec!["a".to_string(), "b".to_string()]);
    app.topic_panel = 1;
    app.topic_cursor = 0;
    app.select_topic();
    assert_eq!(app.generated_topics, vec!["b".to_string()]);
    assert_eq!(app.selected_topics, vec!["a".to_string()]);
    app.topic_panel = 2;
    app.selected_topic_cursor = 0;
    app.select_topic();
    assert_eq!(app.selected_topics, Vec::<String>::new());
    assert_eq!(app.generated_topics, vec!["b".to_string(), "a".to_string()]);
    assert_eq!(app.topic_panel, 1);
}

#[test]
fn activate_on_load_panel_requests_loading() {
    let mut app = fresh_app();
    goto(&mut app, 2, Section::Topics);
    assert_eq!(app.topic_panel, 0);
    let eff = app.handle_event(InputEvent::Activate);
    assert!(matches!(eff, Effect::LoadTopics));
    let eff2 = app.handle_event(InputEvent::SecondaryActivate);
    assert!(matches!(eff2, Effect::LoadTopics));
}

#[test]
fn removing_last_selected_topic_reverts_focus() {
    let mut app = fresh_app();
    goto(&mut app, 2, Section::Topics);
    app.selected_topics.push("s".to_string());
    app.topic_panel = 2;
    app.handle_event(InputEvent::Remove);
    assert!(app.selected_topics.is_empty());
    assert_eq!(app.topic_panel, 0);
}

#[test]
fn cycling_topic_panels_skips_empty_lists() {
    let mut app = fresh_app();
    goto(&mut app, 2, Section::Topics);
    app.cycle_topic_panel();
    assert_eq!(app.topic_panel, 0);
    app.selected_topics.push("s".to_string());
    app.cycle_topic_panel();
    assert_eq!(app.topic_panel, 2);
    app.cycle_topic_panel();
    assert_eq!(app.topic_panel, 0);
    app.set_generated_topics(vec!["g".to_string()]);
    app.cycle_topic_panel();
    assert_eq!(app.topic_panel, 1);
    assert_eq!(app.topic_cursor, 0);
    app.cycle_topic_panel();
    assert_eq!(app.topic_panel, 2);
}

#[test]
fn convert_areas_escalate_and_cycle() {
    let mut app = fresh_app();
    goto(&mut app, 6, Section::Convert);
    app.set_convert_subfolders(vec!["one".to_string(), "two".to_string()]);
    app.navigate_down();
    assert_eq!(app.convert_selected_index, 1);
    app.navigate_down();
    assert_eq!(app.convert_active_area, 1);
    app.navigate_down();
    assert_eq!(app.convert_active_area, 2);
    app.navigate_down();
    assert_eq!(app.convert_active_area, 2);
    app.navigate_up();
    assert_eq!(app.convert_active_area, 1);
    app.handle_event(InputEvent::CycleArea);
    assert_eq!(app.convert_active_area, 2);
    app.handle_event(InputEvent::CycleArea);
    assert_eq!(app.convert_active_area, 0);
}

#[test]
fn combine_toggle_only_in_its_area() {
    let mut app = fresh_app();
    goto(&mut app, 6, Section::Convert);
    assert!(!app.convert_combine);
    app.handle_event(InputEvent::SecondaryActivate);
    assert!(!app.convert_combine);
    app.convert_active_area = 1;
    app.handle_event(InputEvent::SecondaryActivate);
    assert!(app.convert_combine);
}

#[test]
fn bates_fields_adjust_within_their_domains() {
    let mut app = fresh_app();
    goto(&mut app, 7, Section::Bates);
    app.bates_active_area = 2;
    app.handle_event(InputEvent::AdjustUp);
    assert_eq!(app.bates_separator_index, 1);
    app.handle_event(InputEvent::AdjustDown);
    app.handle_event(InputEvent::AdjustDown);
    assert_eq!(app.bates_separator_index, 2);
    app.bates_active_area = 3;
    app.handle_event(InputEvent::AdjustUp);
    assert_eq!(app.bates_start, 2);
    app.handle_event(InputEvent::AdjustDown);
    app.handle_event(InputEvent::AdjustDown);
    assert_eq!(app.bates_start, 1);
    app.bates_active_area = 4;
    for _ in 0..10 {
        app.handle_event(InputEvent::AdjustUp);
    }
    assert_eq!(app.bates_padding, 12);
    for _ in 0..20 {
        app.handle_event(InputEvent::AdjustDown);
    }
    assert_eq!(app.bates_padding, 1);
}

#[test]
fn bates_prefix_edits_cap_at_twenty_characters() {
    let mut app = fresh_app();
    goto(&mut app, 7, Section::Bates);
    app.bates_active_area = 1;
    for _ in 0..30 {
        app.handle_event(InputEvent::TextEdit('x'));
    }
    assert_eq!(app.bates_prefix.chars().count(), 20);
    app.handle_event(InputEvent::Remove);
    assert_eq!(app.bates_prefix.chars().count(), 19);
    assert!(app.bates_prefix.starts_with("BATES"));
}

#[test]
fn bates_list_hands_focus_to_prefix_field() {
    let mut app = fresh_app();
    goto(&mut app, 7, Section::Bates);
    app.navigate_down();
    assert_eq!(app.bates_active_area, 1);
    for _ in 0..10 {
        app.navigate_down();
    }
    assert_eq!(app.bates_active_area, 5);
    app.navigate_up();
    assert_eq!(app.bates_active_area, 4);
}

#[test]
fn settings_commits_theme_under_cursor() {
    let mut app = fresh_app();
    goto(&mut app, 8, Section::Settings);
    app.navigate_down();
    assert_eq!(app.settings_cursor, 1);
    let eff = app.handle_event(InputEvent::Activate);
    assert!(matches!(eff, Effect::Nothing));
    assert_eq!(app.theme_index, 1);
    assert_eq!(app.logs.lines.last(), Some(&"Theme changed to: Nord".to_string()));
    for _ in 0..10 {
        app.navigate_down();
    }
    assert_eq!(app.settings_cursor, 4);
}

#[test]
fn quit_event_sets_the_flag() {
    let mut app = fresh_app();
    app.handle_event(InputEvent::Quit);
    assert!(app.should_quit);
}

#[test]
fn preview_scroll_saturates_at_zero() {
    let mut app = fresh_app();
    goto(&mut app, 4, Section::Preview);
    app.navigate_up();
    assert_eq!(app.preview_scroll, 0);
    app.navigate_down();
    app.navigate_down();
    assert_eq!(app.preview_scroll, 2);
    app.navigate_up();
    assert_eq!(app.preview_scroll, 1);
}

#[test]
fn key_bindings_follow_the_focused_section() {
    let mut app = fresh_app();
    assert_eq!(app.map_key(Key::Up), Some(InputEvent::Up));
    assert_eq!(app.map_key(Key::Char('q')), Some(InputEvent::Quit));
    assert_eq!(app.map_key(Key::CtrlChar('c')), Some(InputEvent::Quit));
    assert_eq!(app.map_key(Key::Char('l')), None);
    goto(&mut app, 2, Section::Topics);
    assert_eq!(app.map_key(Key::Char('l')), Some(InputEvent::SecondaryActivate));
    assert_eq!(app.map_key(Key::Char(' ')), Some(InputEvent::Activate));
    goto(&mut app, 6, Section::Convert);
    assert_eq!(app.map_key(Key::Char(' ')), Some(InputEvent::SecondaryActivate));
    assert_eq!(app.map_key(Key::Char('+')), None);
    goto(&mut app, 5, Section::Run);
    assert_eq!(app.map_key(Key::Char('s')), Some(InputEvent::SecondaryActivate));
    goto(&mut app, 1, Section::Quantity);
    assert_eq!(app.map_key(Key::Char('+')), Some(InputEvent::AdjustUp));
    assert_eq!(app.map_key(Key::Char('_')), Some(InputEvent::AdjustDown));
    goto(&mut app, 7, Section::Bates);
    app.bates_active_area = 1;
    assert_eq!(app.map_key(Key::Char('x')), Some(InputEvent::TextEdit('x')));
    assert_eq!(app.map_key(Key::Char('+')), Some(InputEvent::AdjustUp));
    assert_eq!(app.map_key(Key::Backspace), Some(InputEvent::Remove));
    app.focus = Focus::Sidebar;
    assert_eq!(app.map_key(Key::Char('x')), None);
    assert_eq!(app.map_key(Key::Other), None);
}
