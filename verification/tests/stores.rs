use fedimint_server::envelope::derive_key;
use fedimint_server::{
    encrypted_json_read, encrypted_json_write, get_key, plaintext_json_read, plaintext_json_write,
    read_server_configs, write_nonprivate_configs, AeadKey, ConfigDir, ConfigError, ConfigFile,
    ServerConfig,
};

fn key_of(byte: u8) -> AeadKey {
    match AeadKey::from_bytes(vec![byte; 32]) {
        Some(key) => key,
        None => panic!("a key has 32 bytes"),
    }
}

fn sample() -> ServerConfig {
    ServerConfig {
        local: "{\"bind\":\"127.0.0.1:8173\"}".to_string(),
        consensus: "{\"federation\":\"zoë's mint\"}".to_string(),
        private: "{\"share\":\"0123\"}".to_string(),
    }
}

fn written(server: &ServerConfig, key: &AeadKey) -> ConfigDir {
    let mut dir = ConfigDir::new();
    write_nonprivate_configs(server, &mut dir, "{\"client\":1}", "{\"connect\":2}").unwrap();
    encrypted_json_write(&server.private, key, &mut dir, ConfigFile::Private).unwrap();
    dir
}

#[test]
fn plaintext_write_then_read() {
    let mut dir = ConfigDir::new();
    plaintext_json_write("{\"a\":1}", &mut dir, ConfigFile::Client).unwrap();
    assert_eq!(dir.get(ConfigFile::Client), Some(&b"{\"a\":1}".to_vec()));
    assert_eq!(plaintext_json_read(&dir, ConfigFile::Client).unwrap(), "{\"a\":1}");
    assert_eq!(plaintext_json_read(&dir, ConfigFile::Local).unwrap_err(), ConfigError::IoError);
}

#[test]
fn encrypted_write_then_read() {
    let key = key_of(4);
    let mut dir = ConfigDir::new();
    encrypted_json_write("{\"share\":\"zoë\"}", &key, &mut dir, ConfigFile::Private).unwrap();
    let stored = dir.get(ConfigFile::Private).unwrap();
    assert_eq!(stored.len(), 12 + "{\"share\":\"zoë\"}".len() + 16);
    assert_eq!(encrypted_json_read(&key, &dir, ConfigFile::Private).unwrap(), "{\"share\":\"zoë\"}");
}

#[test]
fn encrypted_read_of_a_missing_file() {
    let dir = ConfigDir::new();
    assert_eq!(
        encrypted_json_read(&key_of(4), &dir, ConfigFile::Private).unwrap_err(),
        ConfigError::IoError
    );
}

#[test]
fn encrypted_read_under_another_key() {
    let mut dir = ConfigDir::new();
    encrypted_json_write("{}", &key_of(4), &mut dir, ConfigFile::Private).unwrap();
    assert_eq!(
        encrypted_json_read(&key_of(5), &dir, ConfigFile::Private).unwrap_err(),
        ConfigError::AuthFailed
    );
}

#[test]
fn encrypted_read_of_a_truncated_file() {
    let key = key_of(4);
    let mut dir = ConfigDir::new();
    encrypted_json_write("{\"share\":1}", &key, &mut dir, ConfigFile::Private).unwrap();
    let stored = dir.get(ConfigFile::Private).unwrap().clone();
    for len in 0..stored.len() {
        dir.put(ConfigFile::Private, stored[..len].to_vec());
        assert_eq!(
            encrypted_json_read(&key, &dir, ConfigFile::Private).unwrap_err(),
            ConfigError::AuthFailed
        );
    }
}

#[test]
fn encrypted_read_of_sealed_bytes_that_are_no_text() {
    let key = key_of(4);
    let mut dir = ConfigDir::new();
    dir.put(ConfigFile::Private, fedimint_server::encrypt(&vec![0xff, 0xfe], &key).unwrap());
    assert_eq!(
        encrypted_json_read(&key, &dir, ConfigFile::Private).unwrap_err(),
        ConfigError::MalformedConfig
    );
}

#[test]
fn write_nonprivate_writes_four_files_in_the_clear() {
    let mut dir = ConfigDir::new();
    dir.put(ConfigFile::Salt, vec![1]);
    write_nonprivate_configs(&sample(), &mut dir, "{\"client\":1}", "{\"connect\":2}").unwrap();
    assert_eq!(dir.get(ConfigFile::Local), Some(&sample().local.into_bytes()));
    assert_eq!(dir.get(ConfigFile::Consensus), Some(&sample().consensus.into_bytes()));
    assert_eq!(dir.get(ConfigFile::Client), Some(&b"{\"client\":1}".to_vec()));
    assert_eq!(dir.get(ConfigFile::ClientConnect), Some(&b"{\"connect\":2}".to_vec()));
    assert_eq!(dir.get(ConfigFile::Salt), Some(&vec![1]));
    assert!(!dir.contains(ConfigFile::Private));
    assert!(!dir.contains(ConfigFile::TlsPk));
    assert!(!dir.contains(ConfigFile::TlsCert));
}

#[test]
fn write_nonprivate_does_not_depend_on_the_private_record() {
    let mut first = ConfigDir::new();
    let mut second = ConfigDir::new();
    let mut other = sample();
    other.private = "{\"share\":\"another\"}".to_string();
    write_nonprivate_configs(&sample(), &mut first, "c", "i").unwrap();
    write_nonprivate_configs(&other, &mut second, "c", "i").unwrap();
    for file in [
        ConfigFile::Local,
        ConfigFile::Consensus,
        ConfigFile::Private,
        ConfigFile::Client,
        ConfigFile::ClientConnect,
        ConfigFile::Salt,
        ConfigFile::TlsCert,
        ConfigFile::TlsPk,
    ] {
        assert_eq!(first.get(file), second.get(file));
    }
}

#[test]
fn read_gives_back_what_was_written() {
    let key = key_of(9);
    let server = sample();
    let dir = written(&server, &key);
    let read = read_server_configs(&key, &dir).unwrap();
    assert_eq!(read.local, server.local);
    assert_eq!(read.consensus, server.consensus);
    assert_eq!(read.private, server.private);
}

#[test]
fn read_with_the_password_that_was_written_with() {
    let mut dir = ConfigDir::new();
    dir.put_text(ConfigFile::Salt, "000102030405060708090a0b0c0d0e0f");
    let key = match get_key(Some("hunter2".to_string()), &dir) {
        Ok(key) => key,
        Err(e) => panic!("no key: {:?}", e),
    };
    let server = sample();
    write_nonprivate_configs(&server, &mut dir, "{}", "{}").unwrap();
    encrypted_json_write(&server.private, &key, &mut dir, ConfigFile::Private).unwrap();
    let again = match get_key(Some("hunter2".to_string()), &dir) {
        Ok(key) => key,
        Err(e) => panic!("no key: {:?}", e),
    };
    let read = read_server_configs(&again, &dir).unwrap();
    assert_eq!(read.local, server.local);
    assert_eq!(read.consensus, server.consensus);
    assert_eq!(read.private, server.private);
}

#[test]
fn read_under_the_wrong_password() {
    let salt = vec![1u8; 16];
    let correct = match derive_key(Some("correct".to_string()), &salt) {
        Ok(key) => key,
        Err(e) => panic!("no key: {:?}", e),
    };
    let wrong = match derive_key(Some("wrong".to_string()), &salt) {
        Ok(key) => key,
        Err(e) => panic!("no key: {:?}", e),
    };
    let dir = written(&sample(), &correct);
    assert_eq!(read_server_configs(&wrong, &dir).unwrap_err(), ConfigError::AuthFailed);
}

#[test]
fn read_without_the_consensus_record() {
    let key = key_of(9);
    let mut dir = ConfigDir::new();
    plaintext_json_write("{}", &mut dir, ConfigFile::Local).unwrap();
    encrypted_json_write("{}", &key, &mut dir, ConfigFile::Private).unwrap();
    assert_eq!(read_server_configs(&key, &dir).unwrap_err(), ConfigError::IncompleteConfig);
}

#[test]
fn read_without_the_private_record() {
    let key = key_of(9);
    let mut dir = ConfigDir::new();
    write_nonprivate_configs(&sample(), &mut dir, "{}", "{}").unwrap();
    assert_eq!(read_server_configs(&key, &dir).unwrap_err(), ConfigError::IncompleteConfig);
}

#[test]
fn read_without_the_local_record() {
    let key = key_of(9);
    let mut dir = ConfigDir::new();
    plaintext_json_write("{}", &mut dir, ConfigFile::Consensus).unwrap();
    encrypted_json_write("{}", &key, &mut dir, ConfigFile::Private).unwrap();
    assert_eq!(read_server_configs(&key, &dir).unwrap_err(), ConfigError::IncompleteConfig);
}

#[test]
fn read_of_an_empty_directory() {
    assert_eq!(
        read_server_configs(&key_of(9), &ConfigDir::new()).unwrap_err(),
        ConfigError::IncompleteConfig
    );
}

#[test]
fn a_missing_record_is_reported_before_a_damaged_one() {
    let key = key_of(9);
    let mut dir = ConfigDir::new();
    dir.put(ConfigFile::Consensus, vec![0xff]);
    dir.put(ConfigFile::Private, vec![0; 3]);
    assert_eq!(read_server_configs(&key, &dir).unwrap_err(), ConfigError::IncompleteConfig);
    dir.put_text(ConfigFile::Local, "{}");
    assert_eq!(read_server_configs(&key, &dir).unwrap_err(), ConfigError::IoError);
    dir.put_text(ConfigFile::Consensus, "{}");
    assert_eq!(read_server_configs(&key, &dir).unwrap_err(), ConfigError::AuthFailed);
}

const ALL: [ConfigFile; 8] = [
    ConfigFile::Local,
    ConfigFile::Consensus,
    ConfigFile::Private,
    ConfigFile::Client,
    ConfigFile::ClientConnect,
    ConfigFile::Salt,
    ConfigFile::TlsCert,
    ConfigFile::TlsPk,
];

#[test]
fn nothing_sealed_is_written_in_the_clear() {
    for file in ALL {
        let mut dir = ConfigDir::new();
        let r = plaintext_json_write("{}", &mut dir, file);
        if file.is_json() {
            assert_eq!(r, Ok(()));
            assert_eq!(dir.get(file), Some(&b"{}".to_vec()));
        } else {
            assert_eq!(r, Err(ConfigError::IoError));
            assert!(!dir.contains(file));
        }
    }
    let mut dir = ConfigDir::new();
    assert_eq!(
        plaintext_json_write("secret", &mut dir, ConfigFile::Private),
        Err(ConfigError::IoError)
    );
    assert_eq!(
        plaintext_json_write("secret", &mut dir, ConfigFile::TlsPk),
        Err(ConfigError::IoError)
    );
}

#[test]
fn only_the_private_record_is_written_as_sealed_json() {
    let key = key_of(4);
    for file in ALL {
        let mut dir = ConfigDir::new();
        let r = encrypted_json_write("{}", &key, &mut dir, file);
        if file == ConfigFile::Private {
            assert_eq!(r, Ok(()));
            assert_eq!(dir.get(file).unwrap().len(), 12 + 2 + 16);
        } else {
            assert_eq!(r, Err(ConfigError::IoError));
            assert!(!dir.contains(file));
        }
    }
}

#[test]
fn a_file_in_another_form_reads_as_if_it_were_not_there() {
    let key = key_of(4);
    let mut dir = ConfigDir::new();
    dir.put_text(ConfigFile::TlsCert, "{}");
    dir.put_text(ConfigFile::Salt, "{}");
    dir.put_text(ConfigFile::Local, "{}");
    encrypted_json_write("{}", &key, &mut dir, ConfigFile::Private).unwrap();
    dir.put(ConfigFile::TlsPk, dir.get(ConfigFile::Private).unwrap().clone());
    assert_eq!(plaintext_json_read(&dir, ConfigFile::TlsCert).unwrap_err(), ConfigError::IoError);
    assert_eq!(plaintext_json_read(&dir, ConfigFile::Salt).unwrap_err(), ConfigError::IoError);
    assert_eq!(plaintext_json_read(&dir, ConfigFile::Private).unwrap_err(), ConfigError::IoError);
    assert_eq!(plaintext_json_read(&dir, ConfigFile::Local).unwrap(), "{}");
    assert_eq!(
        encrypted_json_read(&key, &dir, ConfigFile::TlsPk).unwrap_err(),
        ConfigError::IoError
    );
    assert_eq!(
        encrypted_json_read(&key, &dir, ConfigFile::Local).unwrap_err(),
        ConfigError::IoError
    );
    assert_eq!(encrypted_json_read(&key, &dir, ConfigFile::Private).unwrap(), "{}");
}

#[test]
fn the_sealed_record_is_nonce_text_and_tag() {
    let key = key_of(4);
    let mut dir = ConfigDir::new();
    let text = "{\"share\":\"zoë\"}";
    encrypted_json_write(text, &key, &mut dir, ConfigFile::Private).unwrap();
    assert_eq!(dir.get(ConfigFile::Private).unwrap().len(), 12 + text.len() + 16);
    for file in ALL {
        assert_eq!(dir.contains(file), file == ConfigFile::Private);
    }
}
