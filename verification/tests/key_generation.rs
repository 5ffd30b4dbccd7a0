use fedimint_server::{
    conclude_dkg, create_cert, encrypted_json_write, get_key, read_server_configs, run_dkg,
    write_nonprivate_configs, ConfigDir, ConfigError, ConfigFile, DkgOutcome, DkgSetup, PeerId,
    ServerConfig,
};

fn announcement(name: &str, cert: &str) -> String {
    format!("ws://{name}.example:8173/@ws://{name}.example:8174/@{name}@{cert}")
}

fn dir_of(own: &str) -> ConfigDir {
    let mut dir = ConfigDir::new();
    dir.put_text(ConfigFile::TlsCert, own);
    dir
}

fn prepare(dir: &ConfigDir, certs: Vec<String>) -> Result<DkgSetup<String>, ConfigError> {
    run_dkg(
        "127.0.0.1:8173".to_string(),
        "127.0.0.1:8174".to_string(),
        dir,
        "testfed".to_string(),
        certs,
        vec![1, 2, 3],
        "{\"modules\":[]}".to_string(),
    )
}

fn expect_setup(r: Result<DkgSetup<String>, ConfigError>) -> DkgSetup<String> {
    match r {
        Ok(setup) => setup,
        Err(e) => panic!("not prepared: {:?}", e),
    }
}

fn expect_error(r: Result<DkgSetup<String>, ConfigError>) -> ConfigError {
    match r {
        Ok(_) => panic!("prepared"),
        Err(e) => e,
    }
}

fn four() -> Vec<String> {
    vec![
        announcement("d", "0d"),
        announcement("b", "0b"),
        announcement("a", "0a"),
        announcement("c", "0c"),
    ]
}

#[test]
fn the_parameters_are_what_was_handed_in() {
    let setup = expect_setup(prepare(&dir_of(&announcement("c", "0c")), four()));
    assert_eq!(setup.our_id, PeerId(2));
    assert_eq!(setup.peer_ids, vec![PeerId(0), PeerId(1), PeerId(2), PeerId(3)]);
    assert_eq!(setup.params.our_id, PeerId(2));
    assert_eq!(setup.params.bind_p2p, "127.0.0.1:8173");
    assert_eq!(setup.params.bind_api, "127.0.0.1:8174");
    assert_eq!(setup.params.tls_private_key, vec![1, 2, 3]);
    assert_eq!(setup.params.federation_name, "testfed");
    assert_eq!(setup.params.modules, "{\"modules\":[]}");
    assert_eq!(setup.params.peers.len(), 4);
    assert_eq!(setup.params.peers.get(PeerId(2)).unwrap().name, "c");
}

#[test]
fn four_guardians_find_the_same_peer_ids() {
    let certs = four();
    let orders: [[usize; 4]; 4] = [[0, 1, 2, 3], [3, 2, 1, 0], [1, 3, 0, 2], [2, 0, 3, 1]];
    let expected = [("a", "0a", 0u16), ("b", "0b", 1), ("c", "0c", 2), ("d", "0d", 3)];
    for ((name, cert, id), order) in expected.iter().zip(orders) {
        let shuffled: Vec<String> = order.iter().map(|&i| certs[i].clone()).collect();
        let setup = expect_setup(prepare(&dir_of(&announcement(name, cert)), shuffled));
        assert_eq!(setup.our_id, PeerId(*id));
        let names: Vec<String> = setup
            .peer_ids
            .iter()
            .map(|id| setup.params.peers.get(*id).unwrap().name.clone())
            .collect();
        assert_eq!(names, vec!["a", "b", "c", "d"]);
    }
}

#[test]
fn we_are_found_by_our_certificate_alone() {
    let own = "ws://elsewhere.example:1/@ws://elsewhere.example:2/@other@0B";
    let setup = expect_setup(prepare(&dir_of(own), four()));
    assert_eq!(setup.our_id, PeerId(1));
}

#[test]
fn a_roster_without_us_is_refused() {
    let certs = vec![announcement("b", "0b"), announcement("c", "0c"), announcement("d", "0d")];
    assert_eq!(
        expect_error(prepare(&dir_of(&announcement("a", "0a")), certs)),
        ConfigError::SelfNotInRoster
    );
}

#[test]
fn duplicate_certificates_are_refused() {
    let mut certs = four();
    certs.push(announcement("e", "0a"));
    assert_eq!(
        expect_error(prepare(&dir_of(&announcement("a", "0a")), certs)),
        ConfigError::DuplicateCertificate
    );
}

#[test]
fn an_empty_roster_is_refused() {
    assert_eq!(
        expect_error(prepare(&dir_of(&announcement("a", "0a")), Vec::new())),
        ConfigError::TooFewPeers
    );
}

#[test]
fn a_roster_beyond_the_peer_ids_is_refused() {
    assert_eq!(
        expect_error(prepare(&dir_of(&announcement("a", "0a")), vec![String::new(); 65537])),
        ConfigError::TooManyPeers
    );
}

#[test]
fn a_directory_without_our_connection_string_cannot_be_read() {
    assert_eq!(expect_error(prepare(&ConfigDir::new(), four())), ConfigError::IoError);
}

#[test]
fn our_own_connection_string_must_be_readable() {
    assert_eq!(
        expect_error(prepare(&dir_of("not a connection string"), four())),
        ConfigError::MalformedConnectionString
    );
    let mut dir = ConfigDir::new();
    dir.put(ConfigFile::TlsCert, vec![0xff]);
    assert_eq!(expect_error(prepare(&dir, four())), ConfigError::IoError);
}

#[test]
fn the_roster_is_looked_at_before_our_own_string() {
    let mut certs = four();
    certs.push("broken".to_string());
    assert_eq!(
        expect_error(prepare(&ConfigDir::new(), certs)),
        ConfigError::MalformedConnectionString
    );
}

#[test]
fn the_directory_is_not_written() {
    let dir = dir_of(&announcement("a", "0a"));
    let before = dir.get(ConfigFile::TlsCert).cloned();
    let _ = expect_setup(prepare(&dir, four()));
    assert_eq!(dir.get(ConfigFile::TlsCert).cloned(), before);
    for file in [
        ConfigFile::Local,
        ConfigFile::Consensus,
        ConfigFile::Private,
        ConfigFile::Client,
        ConfigFile::ClientConnect,
        ConfigFile::Salt,
        ConfigFile::TlsPk,
    ] {
        assert!(!dir.contains(file));
    }
}

#[test]
fn conclude_tells_how_key_generation_ended() {
    assert_eq!(conclude_dkg(DkgOutcome::Completed(5)), Ok(5));
    assert_eq!(conclude_dkg::<u8>(DkgOutcome::Failed), Err(ConfigError::DkgFailed));
    assert_eq!(conclude_dkg::<u8>(DkgOutcome::Cancelled), Err(ConfigError::Aborted));
}

#[test]
fn a_federation_of_one() {
    let mut dir = ConfigDir::new();
    let own = create_cert(
        &mut dir,
        "ws://solo.example:8173",
        "ws://solo.example:8174",
        "solo".to_string(),
        Some("hunter2".to_string()),
    )
    .unwrap();
    let setup = expect_setup(prepare(&dir, vec![own]));
    assert_eq!(setup.our_id, PeerId(0));
    assert_eq!(setup.peer_ids, vec![PeerId(0)]);

    // key generation for one guardian has nobody to talk to
    let generated = ServerConfig {
        local: "{\"identity\":0}".to_string(),
        consensus: "{\"name\":\"testfed\"}".to_string(),
        private: "{\"identity\":0,\"secret\":\"s\"}".to_string(),
    };
    let server = conclude_dkg(DkgOutcome::Completed(generated)).unwrap();

    let key = match get_key(Some("hunter2".to_string()), &dir) {
        Ok(key) => key,
        Err(e) => panic!("no key: {:?}", e),
    };
    write_nonprivate_configs(&server, &mut dir, "{\"client\":true}", "{\"urls\":[]}").unwrap();
    encrypted_json_write(&server.private, &key, &mut dir, ConfigFile::Private).unwrap();
    assert!(dir.is_complete());
    let read = read_server_configs(&key, &dir).unwrap();
    assert_eq!(read.local, server.local);
    assert_eq!(read.consensus, server.consensus);
    assert_eq!(read.private, server.private);
}
