use std::sync::Mutex;

use ammuto_core::query::{
    DatabaseQuery, DatabaseResult, QueryBuilder, QueryError, QueryType, TagQuery,
};
use ammuto_core::{
    compress_round_trip, encrypt_round_trip, CompressionAdapter, Core, DatabaseAdapter,
    EncryptionAdapter, FrontendAdapter, ResourceAdapter,
};
use uuid::Uuid;

#[derive(Debug, PartialEq, Clone)]
enum Seen {
    Count(u32),
    Records,
    NoDatabase,
    BadType,
    OtherError,
}

fn summarise<E>(result: &Result<DatabaseResult, QueryError<E>>) -> Seen {
    match result {
        Ok(DatabaseResult::Integer(count)) => Seen::Count(*count),
        Ok(_) => Seen::Records,
        Err(QueryError::NoDatabase) => Seen::NoDatabase,
        Err(QueryError::BadType(_)) => Seen::BadType,
        Err(_) => Seen::OtherError,
    }
}

struct Recorder {
    messages: Mutex<Vec<(Uuid, Seen)>>,
}

impl Recorder {
    fn new() -> Recorder {
        Recorder { messages: Mutex::new(Vec::new()) }
    }

    fn messages(&self) -> Vec<(Uuid, Seen)> {
        self.messages.lock().unwrap().clone()
    }
}

impl<D: DatabaseAdapter> FrontendAdapter<D> for Recorder {
    fn run() {}

    fn on_database_message(&self, id: Uuid, result: &Result<DatabaseResult, QueryError<D::ErrorType>>) {
        self.messages.lock().unwrap().push((id, summarise(result)));
    }
}

struct Counting {
    asked: Mutex<Vec<Uuid>>,
}

impl DatabaseAdapter for Counting {
    type ErrorType = String;

    fn send_query(&self, query: DatabaseQuery) -> Result<DatabaseResult, QueryError<String>> {
        self.asked.lock().unwrap().push(query.id);
        Ok(DatabaseResult::Integer(7))
    }
}

struct Refusing;

impl DatabaseAdapter for Refusing {
    type ErrorType = String;

    fn send_query(&self, query: DatabaseQuery) -> Result<DatabaseResult, QueryError<String>> {
        Err(QueryError::BadType(query.query_type))
    }
}

#[test]
fn without_a_database_the_outcome_is_no_database() {
    let core: Core<Recorder, Counting> = Core { frontend: Recorder::new(), database: None };
    let query = TagQuery::count().finalise();
    let id = query.id;
    let outcome = core.send_query(query);
    assert!(matches!(outcome, Err(QueryError::NoDatabase)));
    assert_eq!(core.frontend.messages(), vec![(id, Seen::NoDatabase)]);
}

#[test]
fn without_a_database_every_query_is_reported_once() {
    let core: Core<Recorder, Counting> = Core { frontend: Recorder::new(), database: None };
    let mut expected = Vec::new();
    for _ in 0..5 {
        let query = TagQuery::all().finalise();
        expected.push((query.id, Seen::NoDatabase));
        assert!(matches!(core.send_query(query), Err(QueryError::NoDatabase)));
    }
    assert_eq!(core.frontend.messages(), expected);
}

#[test]
fn the_answer_of_the_database_is_reported_and_returned() {
    let core = Core {
        frontend: Recorder::new(),
        database: Some(Counting { asked: Mutex::new(Vec::new()) }),
    };
    let query = TagQuery::count().finalise();
    let id = query.id;
    let outcome = core.send_query(query);
    assert!(matches!(outcome, Ok(DatabaseResult::Integer(7))));
    assert_eq!(core.frontend.messages(), vec![(id, Seen::Count(7))]);
    let asked = core.database.as_ref().unwrap().asked.lock().unwrap().clone();
    assert_eq!(asked, vec![id]);
}

#[test]
fn an_error_of_the_database_is_surfaced_unchanged() {
    let core = Core { frontend: Recorder::new(), database: Some(Refusing) };
    let query = TagQuery::count().finalise();
    let id = query.id;
    let outcome = core.send_query(query);
    match outcome {
        Err(QueryError::BadType(kind)) => assert_eq!(kind, QueryType::Tags),
        _ => panic!("the error of the database was replaced"),
    }
    assert_eq!(core.frontend.messages(), vec![(id, Seen::BadType)]);
}

#[test]
fn report_hands_the_outcome_back() {
    let core: Core<Recorder, Counting> = Core { frontend: Recorder::new(), database: None };
    let id = Uuid::from_u128(42);
    let reported = core.report(id, Ok(DatabaseResult::Integer(3)));
    assert!(matches!(reported, Ok(DatabaseResult::Integer(3))));
    let reported = core.report(id, Err(QueryError::ConnectionFault(503)));
    assert!(matches!(reported, Err(QueryError::ConnectionFault(503))));
    assert_eq!(
        core.frontend.messages(),
        vec![(id, Seen::Count(3)), (id, Seen::OtherError)]
    );
}

struct Doubling;

impl CompressionAdapter for Doubling {
    fn lemma_round_trip(&self) {}

    fn compress(&self, data: &[u8]) -> Vec<u8> {
        let mut out = Vec::new();
        for byte in data {
            out.push(*byte);
            out.push(*byte);
        }
        out
    }

    fn decompress(&self, compressed_data: &[u8]) -> Vec<u8> {
        compressed_data.iter().step_by(2).copied().collect()
    }
}

struct Masking(u8);

impl EncryptionAdapter for Masking {
    fn lemma_round_trip(&self) {}

    fn encrypt(&self, data: &[u8]) -> Vec<u8> {
        data.iter().map(|byte| byte ^ self.0).collect()
    }

    fn decrypt(&self, encrypted_data: &[u8]) -> Vec<u8> {
        encrypted_data.iter().map(|byte| byte ^ self.0).collect()
    }
}

struct Disk {
    compression: bool,
    encryption: bool,
}

impl ResourceAdapter for Disk {
    fn read_media() {}

    fn set_compression_adapter(&mut self, adapter: Option<impl CompressionAdapter>) {
        self.compression = adapter.is_some();
    }

    fn set_encryption_adapter(&mut self, adapter: Option<impl EncryptionAdapter>) {
        self.encryption = adapter.is_some();
    }
}

#[test]
fn compression_round_trips() {
    let adapter = Doubling;
    let inputs: Vec<Vec<u8>> = vec![vec![], vec![0], vec![1, 2, 3, 255], (0..=255).collect()];
    for input in inputs {
        assert_eq!(adapter.decompress(&adapter.compress(&input)), input);
        assert_eq!(compress_round_trip(&adapter, &input), input);
    }
}

#[test]
fn encryption_round_trips() {
    let adapter = Masking(0x5a);
    let inputs: Vec<Vec<u8>> = vec![vec![], vec![0], vec![1, 2, 3, 255], (0..=255).collect()];
    for input in inputs {
        assert_eq!(adapter.decrypt(&adapter.encrypt(&input)), input);
        assert_eq!(encrypt_round_trip(&adapter, &input), input);
    }
}

#[test]
fn compression_changes_the_bytes_in_between() {
    assert_eq!(Doubling.compress(&[1, 2]), vec![1, 1, 2, 2]);
    assert_eq!(Masking(0xff).encrypt(&[0x0f, 0xf0]), vec![0xf0, 0x0f]);
}

#[test]
fn adapters_can_be_installed_and_removed() {
    let mut disk = Disk { compression: false, encryption: false };
    disk.set_compression_adapter(Some(Doubling));
    assert!(disk.compression);
    assert!(!disk.encryption);
    disk.set_encryption_adapter(Some(Masking(1)));
    assert!(disk.compression);
    assert!(disk.encryption);
    disk.set_compression_adapter(None::<Doubling>);
    assert!(!disk.compression);
    assert!(disk.encryption);
}
