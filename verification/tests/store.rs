use fhe_server::store::{Bootstrap, KeyFileRead, KeyFiles, KeyStoreError, StoredKeys};

fn sample_files() -> KeyFiles {
    KeyFiles { client: vec![1, 2, 3], server: vec![4, 5], public: vec![6] }
}

#[test]
fn fresh_start_generates_and_persists() {
    // first process start with an empty keys directory: a fresh triple is
    // generated and all three files are written together
    let machine = Bootstrap::start();
    let stored = StoredKeys {
        client: KeyFileRead::Absent,
        server: KeyFileRead::Absent,
        public: KeyFileRead::Absent,
    };
    let machine = machine.observe_store(stored);
    assert!(matches!(machine, Bootstrap::AwaitGeneration));
    let machine = machine.observe_generated(Some(sample_files()));
    match &machine {
        Bootstrap::AwaitPersist(files) => {
            assert_eq!(files.client, vec![1, 2, 3]);
            assert_eq!(files.server, vec![4, 5]);
            assert_eq!(files.public, vec![6]);
        }
        _ => panic!("expected the persist step"),
    }
    let machine = machine.observe_persisted(true);
    assert!(matches!(machine, Bootstrap::Ready));
}

#[test]
fn second_start_loads_without_regenerating() {
    // second start observing the files the first one wrote: the same bytes
    // come back for loading, and no regeneration happens
    let written = sample_files();
    let stored = StoredKeys {
        client: KeyFileRead::Present(written.client),
        server: KeyFileRead::Present(written.server),
        public: KeyFileRead::Present(written.public),
    };
    let machine = Bootstrap::start().observe_store(stored);
    match &machine {
        Bootstrap::AwaitLoad(files) => {
            assert_eq!(files.client, vec![1, 2, 3]);
            assert_eq!(files.server, vec![4, 5]);
            assert_eq!(files.public, vec![6]);
        }
        _ => panic!("expected the load step"),
    }
    let machine = machine.observe_load(true, true, true);
    assert!(matches!(machine, Bootstrap::Ready));
}

#[test]
fn missing_client_file_regenerates() {
    let stored = StoredKeys {
        client: KeyFileRead::Absent,
        server: KeyFileRead::Present(vec![4, 5]),
        public: KeyFileRead::Present(vec![6]),
    };
    let machine = Bootstrap::start().observe_store(stored);
    assert!(matches!(machine, Bootstrap::AwaitGeneration));
}

#[test]
fn missing_server_file_regenerates() {
    let stored = StoredKeys {
        client: KeyFileRead::Present(vec![1, 2, 3]),
        server: KeyFileRead::Absent,
        public: KeyFileRead::Present(vec![6]),
    };
    let machine = Bootstrap::start().observe_store(stored);
    assert!(matches!(machine, Bootstrap::AwaitGeneration));
}

#[test]
fn missing_public_file_regenerates() {
    let stored = StoredKeys {
        client: KeyFileRead::Present(vec![1, 2, 3]),
        server: KeyFileRead::Present(vec![4, 5]),
        public: KeyFileRead::Absent,
    };
    let machine = Bootstrap::start().observe_store(stored);
    assert!(matches!(machine, Bootstrap::AwaitGeneration));
}

#[test]
fn unreadable_client_file_is_fatal() {
    // an existing file whose read failed must not be treated as missing:
    // the bundle is not overwritten, startup fails with the I/O error
    let stored = StoredKeys {
        client: KeyFileRead::Unreadable,
        server: KeyFileRead::Present(vec![4, 5]),
        public: KeyFileRead::Present(vec![6]),
    };
    let machine = Bootstrap::start().observe_store(stored);
    assert!(matches!(machine, Bootstrap::Failed(KeyStoreError::KeyIoError)));
}

#[test]
fn unreadable_server_file_is_fatal() {
    let stored = StoredKeys {
        client: KeyFileRead::Present(vec![1, 2, 3]),
        server: KeyFileRead::Unreadable,
        public: KeyFileRead::Present(vec![6]),
    };
    let machine = Bootstrap::start().observe_store(stored);
    assert!(matches!(machine, Bootstrap::Failed(KeyStoreError::KeyIoError)));
}

#[test]
fn unreadable_public_file_is_fatal() {
    let stored = StoredKeys {
        client: KeyFileRead::Present(vec![1, 2, 3]),
        server: KeyFileRead::Present(vec![4, 5]),
        public: KeyFileRead::Unreadable,
    };
    let machine = Bootstrap::start().observe_store(stored);
    assert!(matches!(machine, Bootstrap::Failed(KeyStoreError::KeyIoError)));
}

#[test]
fn unreadable_beats_absent() {
    // one file missing and another unreadable: the read failure wins, so
    // nothing is regenerated over a store whose contents are unknown
    let stored = StoredKeys {
        client: KeyFileRead::Absent,
        server: KeyFileRead::Unreadable,
        public: KeyFileRead::Present(vec![6]),
    };
    let machine = Bootstrap::start().observe_store(stored);
    assert!(matches!(machine, Bootstrap::Failed(KeyStoreError::KeyIoError)));
}

#[test]
fn one_bad_key_file_is_fatal() {
    // a file that exists but does not deserialize fails the whole startup:
    // no partial bundle is accepted
    let stored = StoredKeys {
        client: KeyFileRead::Present(vec![1, 2, 3]),
        server: KeyFileRead::Present(vec![4, 5]),
        public: KeyFileRead::Present(vec![6]),
    };
    let machine = Bootstrap::start().observe_store(stored);
    let machine = machine.observe_load(true, false, true);
    assert!(matches!(machine, Bootstrap::Failed(KeyStoreError::KeySerializationError)));
}

#[test]
fn failed_generation_is_fatal() {
    // a fresh triple that could not be serialized never reaches the store
    let machine = Bootstrap::start();
    let stored = StoredKeys {
        client: KeyFileRead::Absent,
        server: KeyFileRead::Absent,
        public: KeyFileRead::Absent,
    };
    let machine = machine.observe_store(stored);
    let machine = machine.observe_generated(None);
    assert!(matches!(machine, Bootstrap::Failed(KeyStoreError::KeySerializationError)));
}

#[test]
fn failed_write_is_fatal() {
    let machine = Bootstrap::start();
    let stored = StoredKeys {
        client: KeyFileRead::Absent,
        server: KeyFileRead::Absent,
        public: KeyFileRead::Absent,
    };
    let machine = machine.observe_store(stored);
    let machine = machine.observe_generated(Some(sample_files()));
    let machine = machine.observe_persisted(false);
    assert!(matches!(machine, Bootstrap::Failed(KeyStoreError::KeyIoError)));
}
