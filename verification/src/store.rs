use vstd::prelude::*;

verus! {

/// One key file as the store observed it. A file that exists but cannot be
/// read is its own case: it must not be mistaken for a missing one, or a
/// transient filesystem error would overwrite a complete bundle.
pub enum KeyFileRead {
    /// The file does not exist.
    Absent,
    /// The file exists but reading it failed.
    Unreadable,
    /// The file exists and these are its bytes.
    Present(Vec<u8>),
}

/// What the process found on persistent storage at startup: one
/// observation per key file.
pub struct StoredKeys {
    pub client: KeyFileRead,
    pub server: KeyFileRead,
    pub public: KeyFileRead,
}

impl StoredKeys {
    /// A bundle on disk is complete only when all three key files exist
    /// and their bytes are in hand; anything less is not valid operating
    /// state.
    pub open spec fn complete(self) -> bool {
        self.client is Present && self.server is Present && self.public is Present
    }

    /// No read of an existing file failed. Where this does not hold, the
    /// store's true contents are unknown and no decision about them is
    /// sound.
    pub open spec fn readable(self) -> bool {
        !(self.client is Unreadable) && !(self.server is Unreadable) && !(self.public
            is Unreadable)
    }
}

/// The serialized forms of one key triple, as they stand in the three key
/// files: client key, server (evaluation) key, compact public key.
pub struct KeyFiles {
    pub client: Vec<u8>,
    pub server: Vec<u8>,
    pub public: Vec<u8>,
}

impl KeyFiles {
    /// The store that a later startup observes after these files were
    /// written and nothing was disturbed.
    pub open spec fn as_stored(self) -> StoredKeys {
        StoredKeys {
            client: KeyFileRead::Present(self.client),
            server: KeyFileRead::Present(self.server),
            public: KeyFileRead::Present(self.public),
        }
    }
}

/// Why bringing the key bundle up failed. Both are fatal at startup: the
/// process must exit without serving requests.
#[derive(Clone, Copy, PartialEq, Eq, Structural, Debug)]
pub enum KeyStoreError {
    /// A filesystem step — creating the key directory, reading an existing
    /// key file, or writing one — failed.
    KeyIoError,
    /// Key material failed to serialize, or a key file exists but its
    /// contents do not deserialize to a key (corrupted or
    /// version-mismatched material).
    KeySerializationError,
}

/// The key-bundle bootstrap protocol, one state per outside effect that it
/// awaits. The process walks it exactly once at startup, before the
/// listener is created: the library decides each step, the caller performs
/// the filesystem or cryptographic work and reports what happened. The
/// `requires` clauses of the transition methods pin the order of the
/// protocol; their `ensures` clauses pin every decision.
pub enum Bootstrap {
    /// Ask the store whether each of the three key files exists, and for
    /// the bytes of those that do.
    AwaitStore,
    /// The bundle on disk is complete: ask the collaborator to deserialize
    /// each of the three blobs. Loading is all-or-nothing.
    AwaitLoad(KeyFiles),
    /// At least one file is missing and every existing file was read: ask
    /// the collaborator for a fresh key triple, serialized. The survivors
    /// of a partial bundle are never loaded against a fresh third.
    AwaitGeneration,
    /// Ask the store to write all three files of the fresh triple.
    AwaitPersist(KeyFiles),
    /// The bundle stands: the server may bind its listener.
    Ready,
    /// Fatal: the process must exit nonzero without serving.
    Failed(KeyStoreError),
}

impl Bootstrap {
    /// The decision taken on observing the store: a failed read of an
    /// existing file is fatal before anything else is decided; a complete
    /// bundle is loaded; only genuine absence regenerates.
    pub open spec fn store_step(stored: StoredKeys) -> Bootstrap {
        if !stored.readable() {
            Bootstrap::Failed(KeyStoreError::KeyIoError)
        } else if stored.complete() {
            Bootstrap::AwaitLoad(
                KeyFiles {
                    client: stored.client->Present_0,
                    server: stored.server->Present_0,
                    public: stored.public->Present_0,
                },
            )
        } else {
            Bootstrap::AwaitGeneration
        }
    }

    /// The decision taken on the collaborator's report of the three
    /// deserializations: any single failure is fatal.
    pub open spec fn load_step(client_ok: bool, server_ok: bool, public_ok: bool) -> Bootstrap {
        if client_ok && server_ok && public_ok {
            Bootstrap::Ready
        } else {
            Bootstrap::Failed(KeyStoreError::KeySerializationError)
        }
    }

    /// The decision taken on the collaborator's report of generation: the
    /// serialized triple moves on to be persisted; failing to produce it
    /// is fatal.
    pub open spec fn generation_step(files: Option<KeyFiles>) -> Bootstrap {
        match files {
            Some(f) => Bootstrap::AwaitPersist(f),
            None => Bootstrap::Failed(KeyStoreError::KeySerializationError),
        }
    }

    /// The decision taken on the store's report of the writes: a failed
    /// write is fatal.
    pub open spec fn persist_step(ok: bool) -> Bootstrap {
        if ok {
            Bootstrap::Ready
        } else {
            Bootstrap::Failed(KeyStoreError::KeyIoError)
        }
    }

    /// Begin the bootstrap: nothing was observed yet.
    pub fn start() -> (s: Self)
        ensures
            s is AwaitStore,
    {
        Bootstrap::AwaitStore
    }

    /// Report what the store holds.
    pub fn observe_store(self, stored: StoredKeys) -> (s: Self)
        requires
            self is AwaitStore,
        ensures
            s == Self::store_step(stored),
    {
        match (stored.client, stored.server, stored.public) {
            (KeyFileRead::Unreadable, _, _)
            | (_, KeyFileRead::Unreadable, _)
            | (_, _, KeyFileRead::Unreadable) => Bootstrap::Failed(KeyStoreError::KeyIoError),
            (KeyFileRead::Present(client), KeyFileRead::Present(server), KeyFileRead::Present(
                public,
            )) => Bootstrap::AwaitLoad(KeyFiles { client, server, public }),
            _ => Bootstrap::AwaitGeneration,
        }
    }

    /// Report, for each of the three blobs handed out in `AwaitLoad`,
    /// whether it deserialized to a key.
    pub fn observe_load(self, client_ok: bool, server_ok: bool, public_ok: bool) -> (s: Self)
        requires
            self is AwaitLoad,
        ensures
            s == Self::load_step(client_ok, server_ok, public_ok),
    {
        if client_ok && server_ok && public_ok {
            Bootstrap::Ready
        } else {
            Bootstrap::Failed(KeyStoreError::KeySerializationError)
        }
    }

    /// Hand over the serialized fresh triple — all three files are to be
    /// written together — or report that serializing it failed.
    pub fn observe_generated(self, files: Option<KeyFiles>) -> (s: Self)
        requires
            self is AwaitGeneration,
        ensures
            s == Self::generation_step(files),
    {
        match files {
            Some(f) => Bootstrap::AwaitPersist(f),
            None => Bootstrap::Failed(KeyStoreError::KeySerializationError),
        }
    }

    /// Report whether the directory was in place and all three writes
    /// succeeded.
    pub fn observe_persisted(self, ok: bool) -> (s: Self)
        requires
            self is AwaitPersist,
        ensures
            s == Self::persist_step(ok),
    {
        if ok {
            Bootstrap::Ready
        } else {
            Bootstrap::Failed(KeyStoreError::KeyIoError)
        }
    }
}

/// Bootstrapping is idempotent: a second bootstrap that observes exactly
/// the files a first one wrote finds the store complete and readable, and
/// its next step loads those bytes back, byte for byte — it never
/// regenerates.
pub proof fn lemma_bootstrap_idempotent(files: KeyFiles)
    ensures
        files.as_stored().complete(),
        files.as_stored().readable(),
        Bootstrap::store_step(files.as_stored()) == Bootstrap::AwaitLoad(files),
{
}

/// The bundle becomes operational in exactly two ways, both all-or-nothing:
/// every one of the three blobs of a complete store deserialized, or a
/// fresh triple was persisted in full. No decision of the protocol yields
/// `Ready` on a partial load or a partial write, and neither observing the
/// store nor generation yields `Ready` outright.
pub proof fn lemma_ready_is_all_or_nothing(
    stored: StoredKeys,
    files: Option<KeyFiles>,
    client_ok: bool,
    server_ok: bool,
    public_ok: bool,
    persist_ok: bool,
)
    ensures
        Bootstrap::store_step(stored) != Bootstrap::Ready,
        Bootstrap::generation_step(files) != Bootstrap::Ready,
        Bootstrap::load_step(client_ok, server_ok, public_ok) == Bootstrap::Ready <==> client_ok
            && server_ok && public_ok,
        Bootstrap::persist_step(persist_ok) == Bootstrap::Ready <==> persist_ok,
{
}

/// A bundle missing any of its three files — every existing file having
/// been read — is incomplete, so bootstrap moves to regeneration: the
/// surviving stale files are never loaded against a freshly generated
/// third.
pub proof fn lemma_partial_bundle_regenerates(stored: StoredKeys)
    requires
        stored.client is Absent || stored.server is Absent || stored.public is Absent,
        stored.readable(),
    ensures
        !stored.complete(),
        Bootstrap::store_step(stored) == Bootstrap::AwaitGeneration,
{
}

/// A key file that exists but cannot be read is fatal with the filesystem
/// error: the bootstrap neither loads the bundle nor mistakes the file for
/// a missing one and overwrites the other two.
pub proof fn lemma_unreadable_file_is_fatal(stored: StoredKeys)
    requires
        stored.client is Unreadable || stored.server is Unreadable || stored.public
            is Unreadable,
    ensures
        Bootstrap::store_step(stored) == Bootstrap::Failed(KeyStoreError::KeyIoError),
{
}

} // verus!
