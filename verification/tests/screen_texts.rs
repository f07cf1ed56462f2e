use xfercat::app::{Action, App, ExecutionMode, ProfileEditor};
use xfercat::view::{
    editor_title, has_staged, item_heading, item_tags, local_title, pad_right, profile_row,
    remote_title, review_boundary, review_title, waybill_title, destination_prefix,
};

#[test]
fn waybill_rows_show_exact_endpoints_and_tags() {
    let mut app = App::demo();
    app.update(Action::Activate);
    app.update(Action::AddToPlan);
    let item = &app.plan[0];
    assert_eq!(item_heading(item), "#1 ↑ local:/workspace/outgoing/app.tar.gz");
    assert_eq!(destination_prefix(item), "   → dev-box:/srv/xfercat/app.tar.gz  ");
    assert_eq!(item_tags(item), "[ASK] [DEST:MISSING] [STAGED]");
    assert!(has_staged(&app.plan));
    assert_eq!(waybill_title(ExecutionMode::Fixture, app.plan.len()), "[WAYBILL] 1 item(s) · preview only");
    assert_eq!(local_title(&app), "[LOCAL] /workspace/outgoing");
    assert_eq!(remote_title(&app), "[REMOTE] dev-box:/srv/xfercat");
}

#[test]
fn review_texts_disclose_the_write_boundary() {
    assert_eq!(review_title(ExecutionMode::Fixture), "DRY-RUN TRANSFER REVIEW");
    assert_eq!(review_title(ExecutionMode::Live), "TRANSFER EXECUTION REVIEW");
    assert_eq!(
        review_boundary(ExecutionMode::Live, true),
        (
            "Enter executes actual local/SFTP file writes after validation.",
            "Enter Execute staged files   Esc Back"
        )
    );
    assert_eq!(
        review_boundary(ExecutionMode::Fixture, false).1,
        "Synthetic results preserved   Esc Back"
    );
    let app = App::demo();
    assert!(!has_staged(&app.plan));
    assert_eq!(remote_title(&app), "[REMOTE] disconnected");
}

#[test]
fn catalog_rows_and_form_titles() {
    let app = App::demo();
    assert_eq!(profile_row(&app.profiles[0]), "dev-box      SFTP  Agent");
    assert_eq!(profile_row(&app.profiles[1]), "archive      SFTP  Key:archive-key");
    assert_eq!(pad_right("abcdef", 3), "abcdef");
    assert_eq!(editor_title(&ProfileEditor::create()), "xfercat · Add profile");
    let edit = ProfileEditor::edit(&app.profiles[0]).expect("synthetic profiles are editable");
    assert_eq!(editor_title(&edit), "xfercat · Edit profile");
}
