use overlay_backend::probe::check_process_running;

#[test]
fn name_in_listing_is_found() {
    let listing = String::from(
        "Image Name                     PID\nnotepad.exe                   4242\n",
    );
    assert!(check_process_running(&String::from("notepad.exe"), &listing));
}

#[test]
fn name_absent_from_listing_is_not_found() {
    let listing = String::from("Image Name                     PID\nexplorer.exe 100\n");
    assert!(!check_process_running(&String::from("notepad.exe"), &listing));
}

#[test]
fn match_is_substring_not_exact() {
    let listing = String::from("notepad.exe 4242");
    assert!(check_process_running(&String::from("note"), &listing));
}

#[test]
fn match_is_case_sensitive() {
    let listing = String::from("Notepad.exe 4242");
    assert!(!check_process_running(&String::from("notepad.exe"), &listing));
}

#[test]
fn empty_name_always_matches() {
    assert!(check_process_running(&String::new(), &String::from("anything")));
    assert!(check_process_running(&String::new(), &String::new()));
}

#[test]
fn name_longer_than_listing_never_matches() {
    assert!(!check_process_running(&String::from("notepad.exe"), &String::from("no")));
}

#[test]
fn match_at_the_very_end() {
    let listing = String::from("header notepad.exe");
    assert!(check_process_running(&String::from("notepad.exe"), &listing));
}
