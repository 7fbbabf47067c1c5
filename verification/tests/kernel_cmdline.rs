use chelsea_lib::kernel_cmdline::{push_chelsea_params, second_word_of};

#[test]
fn second_word_of_openssh_key_line() {
    assert_eq!(
        second_word_of("ssh-ed25519 AAAAC3NzaC1lZDI1NTE5AAAAIG4k user@host"),
        "AAAAC3NzaC1lZDI1NTE5AAAAIG4k"
    );
    assert_eq!(second_word_of("  ssh-ed25519\t\tKEY  "), "KEY");
    assert_eq!(second_word_of("only-one"), "");
    assert_eq!(second_word_of(""), "");
}

#[test]
fn chelsea_params_layout() {
    let vm_id = uuid::Uuid::parse_str("550e8400-e29b-41d4-a716-446655440000")
        .unwrap()
        .as_u128();
    let mut out: Vec<char> = "console=ttyS0 ".chars().collect();
    push_chelsea_params(&mut out, 12345, vm_id, "KEYB64", "http://host/:vm_id/ready");
    let text: String = out.into_iter().collect();
    assert_eq!(
        text,
        "console=ttyS0 chelsea_entropy=12345 chelsea_vm_id=550e8400-e29b-41d4-a716-446655440000 chelsea_ssh_pubkey=KEYB64 chelsea_notify_boot_url_template=http://host/:vm_id/ready"
    );
}

#[test]
fn second_word_uses_unicode_white_space() {
    assert_eq!(second_word_of("ssh-ed25519\u{3000}KEY"), "KEY");
    assert_eq!(second_word_of("a\u{a0}b c"), "b");
    assert_eq!(second_word_of("a\u{200b}b c"), "c");
}
