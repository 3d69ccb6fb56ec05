//! Query construction, tri-state field values and adapter contracts for a
//! tag-based media catalogue.
//!
//! Front ends describe the records they want with the builders in [`query`],
//! storage answers with the record shapes in [`data`] and [`values`], and
//! [`Core`] routes a finished query to the attached database.
//!
//! Components:
//! Core <--(Poll/Push Adapter)--> UI
//! Core <--(Connection Adapter)--> Database
//! Database <--(Compression & Encryption Adapter)--> File System

use query::{DatabaseQuery, DatabaseResult, QueryError};
use uuid::Uuid;
use vstd::prelude::*;

pub mod data;
pub mod ident;
pub mod query;
pub mod values;

verus! {

/// The core structure. Holds the front end and, if one is attached, the
/// database, and passes queries between them.
pub struct Core<Frontend, Database> where
    Database: DatabaseAdapter,
    Frontend: FrontendAdapter<Database>,
 {
    pub frontend: Frontend,
    pub database: Option<Database>,
}

impl<Frontend, Database> Core<Frontend, Database> where
    Database: DatabaseAdapter,
    Frontend: FrontendAdapter<Database>,
 {
    /// Sends a query to the attached database and reports the outcome.
    ///
    /// With a database attached the outcome is whatever the database
    /// answers; the query is not retried. With none attached the outcome is
    /// [`QueryError::NoDatabase`]. Either way the front end is told the
    /// outcome, under the query's id, before it is returned.
    pub fn send_query(&self, query: DatabaseQuery) -> (outcome: Result<
        DatabaseResult,
        QueryError<Database::ErrorType>,
    >)
        ensures
            self.database is None ==> outcome == Err::<
                DatabaseResult,
                QueryError<Database::ErrorType>,
            >(QueryError::NoDatabase),
            self.database matches Some(database) ==> database.answers(query, outcome),
            self.frontend.told(query.id, outcome),
    {
        let id = query.id;
        let outcome = match &self.database {
            Some(database) => database.send_query(query),
            None => Err(QueryError::NoDatabase),
        };
        self.report(id, outcome)
    }

    /// Tells the front end the outcome of the query with the given id, then
    /// hands the outcome back unchanged.
    pub fn report(
        &self,
        id: Uuid,
        outcome: Result<DatabaseResult, QueryError<Database::ErrorType>>,
    ) -> (reported: Result<DatabaseResult, QueryError<Database::ErrorType>>)
        ensures
            reported == outcome,
            self.frontend.told(id, outcome),
    {
        self.frontend.on_database_message(id, &outcome);
        outcome
    }
}

/// Describes the functions required to control and handle any frontend
pub trait FrontendAdapter<Database> where Database: DatabaseAdapter {
    /// What it means for this front end to have been told the outcome of
    /// the query with the given id. An implementation chooses how much it
    /// says here; unless it says otherwise, nothing more is known than that
    /// the callback returned.
    open spec fn told(
        &self,
        id: Uuid,
        result: Result<DatabaseResult, QueryError<Database::ErrorType>>,
    ) -> bool {
        true
    }

    /// Serves as the entry point for the frontend. This is expected to block the thread
    fn run();

    /// Receives the outcome of the query with the given id. It is called
    /// from whatever thread the core runs on and should return promptly: the
    /// core waits for it.
    fn on_database_message(
        &self,
        id: Uuid,
        result: &Result<DatabaseResult, QueryError<Database::ErrorType>>,
    )
        ensures
            self.told(id, *result),
    ;
}

/// Describes the functions a Database should provide to accept data and requests
pub trait DatabaseAdapter {
    /// The type used for a custom error
    type ErrorType;

    /// What this database may answer to a query. An implementation chooses
    /// how much it promises here; unless it says otherwise, any outcome may
    /// come back.
    open spec fn answers(
        &self,
        query: DatabaseQuery,
        outcome: Result<DatabaseResult, QueryError<Self::ErrorType>>,
    ) -> bool {
        true
    }

    /// Synchronously sends a query to the database: it returns only once a
    /// result or an error is known.
    fn send_query(&self, query: DatabaseQuery) -> (outcome: Result<
        DatabaseResult,
        QueryError<Self::ErrorType>,
    >)
        ensures
            self.answers(query, outcome),
    ;
}

/// Describes the functions needed to get and put resources on the target medium.
pub trait ResourceAdapter {
    fn read_media();

    /// Sets the adapter used for compression. If [`None`], compression must
    /// be either handled by the filesystem or there is no compression at all.
    fn set_compression_adapter(&mut self, adapter: Option<impl CompressionAdapter>);

    /// Sets the adapter used for encryption. If [`None`], encryption must be
    /// either handled by the filesystem or there is no encryption at all.
    fn set_encryption_adapter(&mut self, adapter: Option<impl EncryptionAdapter>);
}

/// Describes the functions needed to compress and decompress a resource
/// coming from the parent [`ResourceAdapter`]
pub trait CompressionAdapter {
    /// Whether `compressed_data` may come out when `data` is compressed. An
    /// implementation says here what it promises of `compress`.
    open spec fn compresses(&self, data: Seq<u8>, compressed_data: Seq<u8>) -> bool {
        true
    }

    /// Whether `data` may come out when `compressed_data` is decompressed.
    /// An implementation says here what it promises of `decompress`.
    open spec fn decompresses(&self, compressed_data: Seq<u8>, data: Seq<u8>) -> bool {
        true
    }

    /// Compression loses nothing: whatever may come out for some data
    /// decompresses to that data and to nothing else. Every adapter owes
    /// this, so `compresses` and `decompresses` have to say enough for it.
    proof fn lemma_round_trip(&self)
        ensures
            forall|data: Seq<u8>, compressed_data: Seq<u8>, restored: Seq<u8>|
                #![trigger self.compresses(data, compressed_data), self.decompresses(compressed_data, restored)]
                self.compresses(data, compressed_data) && self.decompresses(
                    compressed_data,
                    restored,
                ) ==> restored == data,
    ;

    /// Takes in any amount of uncompressed byte data, and outputs the data
    /// in a lossless compressed format
    fn compress(&self, data: &[u8]) -> (compressed_data: Vec<u8>)
        ensures
            self.compresses(data@, compressed_data@),
    ;

    /// Takes in any amount of compressed byte data, and outputs the original data
    fn decompress(&self, compressed_data: &[u8]) -> (data: Vec<u8>)
        ensures
            self.decompresses(compressed_data@, data@),
    ;
}

/// Describes the functions needed to encrypt and decrypt a resource coming
/// from the parent [`ResourceAdapter`]
pub trait EncryptionAdapter {
    /// Whether `encrypted_data` may come out when `data` is encrypted. An
    /// implementation says here what it promises of `encrypt`.
    open spec fn encrypts(&self, data: Seq<u8>, encrypted_data: Seq<u8>) -> bool {
        true
    }

    /// Whether `data` may come out when `encrypted_data` is decrypted. An
    /// implementation says here what it promises of `decrypt`.
    open spec fn decrypts(&self, encrypted_data: Seq<u8>, data: Seq<u8>) -> bool {
        true
    }

    /// Encryption can be undone: whatever may come out for some data
    /// decrypts to that data and to nothing else. Every adapter owes this,
    /// so `encrypts` and `decrypts` have to say enough for it.
    proof fn lemma_round_trip(&self)
        ensures
            forall|data: Seq<u8>, encrypted_data: Seq<u8>, restored: Seq<u8>|
                #![trigger self.encrypts(data, encrypted_data), self.decrypts(encrypted_data, restored)]
                self.encrypts(data, encrypted_data) && self.decrypts(encrypted_data, restored)
                    ==> restored == data,
    ;

    /// Takes in any amount of unencrypted data, and outputs the data in an
    /// encrypted format
    fn encrypt(&self, data: &[u8]) -> (encrypted_data: Vec<u8>)
        ensures
            self.encrypts(data@, encrypted_data@),
    ;

    /// Takes in any amount of encrypted data, and outputs the data in an
    /// unencrypted format
    fn decrypt(&self, encrypted_data: &[u8]) -> (data: Vec<u8>)
        ensures
            self.decrypts(encrypted_data@, data@),
    ;
}

/// What is asked of every compression adapter: whatever it gives for some
/// data decompresses to that data again.
pub open spec fn lossless<Compression: CompressionAdapter>(adapter: &Compression) -> bool {
    forall|data: Seq<u8>, compressed_data: Seq<u8>, restored: Seq<u8>|
        #![trigger adapter.compresses(data, compressed_data), adapter.decompresses(compressed_data, restored)]
        adapter.compresses(data, compressed_data) && adapter.decompresses(
            compressed_data,
            restored,
        ) ==> restored == data
}

/// What is asked of every encryption adapter: whatever it gives for some
/// data decrypts to that data again.
pub open spec fn reversible<Encryption: EncryptionAdapter>(adapter: &Encryption) -> bool {
    forall|data: Seq<u8>, encrypted_data: Seq<u8>, restored: Seq<u8>|
        #![trigger adapter.encrypts(data, encrypted_data), adapter.decrypts(encrypted_data, restored)]
        adapter.encrypts(data, encrypted_data) && adapter.decrypts(encrypted_data, restored)
            ==> restored == data
}

/// Every compression adapter is lossless: its trait asks for the proof.
pub proof fn lemma_compression_round_trip<Compression: CompressionAdapter>(adapter: &Compression)
    ensures
        lossless(adapter),
{
    adapter.lemma_round_trip();
}

/// Every encryption adapter is reversible: its trait asks for the proof.
pub proof fn lemma_encryption_round_trip<Encryption: EncryptionAdapter>(adapter: &Encryption)
    ensures
        reversible(adapter),
{
    adapter.lemma_round_trip();
}

/// Compresses the data with the adapter and decompresses what came out. The
/// data comes back as it went in.
pub fn compress_round_trip<Compression: CompressionAdapter>(
    adapter: &Compression,
    data: &[u8],
) -> (restored: Vec<u8>)
    ensures
        restored@ == data@,
        exists|compressed_data: Seq<u8>|
            adapter.compresses(data@, compressed_data) && adapter.decompresses(
                compressed_data,
                restored@,
            ),
{
    let compressed_data = adapter.compress(data);
    let restored = adapter.decompress(compressed_data.as_slice());
    proof {
        adapter.lemma_round_trip();
        assert(adapter.compresses(data@, compressed_data@) && adapter.decompresses(
            compressed_data@,
            restored@,
        ));
    }
    restored
}

/// Encrypts the data with the adapter and decrypts what came out. The data
/// comes back as it went in.
pub fn encrypt_round_trip<Encryption: EncryptionAdapter>(
    adapter: &Encryption,
    data: &[u8],
) -> (restored: Vec<u8>)
    ensures
        restored@ == data@,
        exists|encrypted_data: Seq<u8>|
            adapter.encrypts(data@, encrypted_data) && adapter.decrypts(
                encrypted_data,
                restored@,
            ),
{
    let encrypted_data = adapter.encrypt(data);
    let restored = adapter.decrypt(encrypted_data.as_slice());
    proof {
        adapter.lemma_round_trip();
        assert(adapter.encrypts(data@, encrypted_data@) && adapter.decrypts(
            encrypted_data@,
            restored@,
        ));
    }
    restored
}

} // verus!
