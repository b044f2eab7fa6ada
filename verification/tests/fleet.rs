use chartex_radio::fleet::{
    check, create_new_container, get_running_containers, list_containers, pull_image,
    remove_container, restart_all_containers, restart_container, restart_everything, AppConfig,
    AuthError, Container, RadioStation,
};

#[test]
fn only_the_very_token_is_admitted() {
    assert_eq!(check(Some("s3cret"), "s3cret"), Ok(()));
    assert_eq!(check(Some("s3cret"), "s3cre"), Err(AuthError::Unauthorized));
    assert_eq!(check(Some("s3cret"), "S3CRET"), Err(AuthError::Unauthorized));
    assert_eq!(check(Some("s3cret"), ""), Err(AuthError::Unauthorized));
    assert_eq!(check(Some(""), ""), Ok(()));
}

#[test]
fn nobody_is_admitted_without_a_configured_token() {
    assert_eq!(check(None, "s3cret"), Err(AuthError::NotConfigured));
    assert_eq!(check(None, ""), Err(AuthError::NotConfigured));
}

#[test]
fn listing_is_read_in_pairs() {
    let containers = get_running_containers("4c01db0b339c\nradio_one\n d7886598dbe2 \r\n radio two\n");
    assert_eq!(
        containers,
        Some(vec![
            Container { id: String::from("4c01db0b339c"), name: String::from("radio_one") },
            Container { id: String::from("d7886598dbe2"), name: String::from("radio two") },
        ])
    );
}

#[test]
fn empty_listing_names_no_container() {
    assert_eq!(get_running_containers(""), Some(Vec::new()));
}

#[test]
fn listing_that_ends_in_an_id_is_not_read() {
    assert_eq!(get_running_containers("4c01db0b339c\n"), None);
    assert_eq!(get_running_containers("a\nb\nc"), None);
}

#[test]
fn container_is_stopped_then_deleted() {
    assert_eq!(
        remove_container("radio_one"),
        vec![vec!["docker", "stop", "radio_one"], vec!["docker", "rm", "radio_one"]]
    );
}

#[test]
fn container_is_restarted_by_name() {
    assert_eq!(restart_container("radio_one"), vec!["docker", "restart", "radio_one"]);
}

#[test]
fn image_is_pulled_by_name() {
    assert_eq!(pull_image("chartex/radio:latest"), vec!["docker", "pull", "chartex/radio:latest"]);
}

#[test]
fn restart_messages_are_the_lines_printed() {
    assert_eq!(restart_all_containers("4c01db0b339c\nd7886598dbe2\n"), vec!["4c01db0b339c", "d7886598dbe2"]);
    assert_eq!(restart_all_containers(""), Vec::<String>::new());
}

#[test]
fn recognizer_is_started_with_the_station_and_the_configuration() {
    let station = RadioStation {
        name: String::from("Radio One FM"),
        url: String::from("http://x/live.m3u8"),
    };
    let config = AppConfig {
        image: String::from("chartex/radio"),
        endpoint: String::from("http://sink/hook"),
        interval: 15,
    };
    assert_eq!(
        create_new_container(&station, &config),
        vec![
            "docker",
            "run",
            "--restart=always",
            "-d",
            "--init",
            "--name",
            "Radio_One_FM",
            "chartex/radio",
            "--debug",
            "--station",
            "http://x/live.m3u8",
            "--interval",
            "15",
            "--endpoint",
            "http://sink/hook",
        ]
    );
}

#[test]
fn containers_are_listed_two_lines_each() {
    assert_eq!(list_containers(), vec!["docker", "ps", "--format", "{{.ID}}\n{{.Names}}"]);
}

#[test]
fn every_container_is_restarted_by_one_shell_line() {
    assert_eq!(restart_everything(), vec!["bash", "-c", "docker restart $(docker ps -a -q)"]);
}
