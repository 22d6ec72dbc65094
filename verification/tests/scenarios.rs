//! Whole runs of the store against a disk that lives in memory, with JSON as
//! the text of the file.

use std::collections::{BTreeMap, BTreeSet};
use std::path::Path;

use openseat_config::config::{Config, Content};
use openseat_config::protocol::{Failure, Reply, Request};
use openseat_config::save::SaveProgress;
use openseat_config::startup::Progress;
use serde::ser::{Serialize, SerializeStruct, Serializer};
use serde_json::Value;

/// A document on its way into JSON, field by field in the order of the file.
struct Wire<'a>(&'a Content);

impl Serialize for Wire<'_> {
    fn serialize<S: Serializer>(&self, serializer: S) -> Result<S::Ok, S::Error> {
        let mut fields = serializer.serialize_struct("Content", 3)?;
        fields.serialize_field("version", &self.0.version)?;
        fields.serialize_field("language", &self.0.language)?;
        fields.serialize_field("theme", &self.0.theme)?;
        fields.end()
    }
}

fn encode(content: &Content) -> Option<String> {
    serde_json::to_string(&Wire(content)).ok()
}

fn decode(text: &str) -> Option<Content> {
    let value: Value = serde_json::from_str(text).ok()?;
    let fields = value.as_object()?;
    Some(Content {
        version: u16::try_from(fields.get("version")?.as_u64()?).ok()?,
        language: fields.get("language")?.as_str()?.to_owned(),
        theme: fields.get("theme")?.as_str()?.to_owned(),
    })
}

/// A disk in memory, and a record of all that was asked of it.
struct Disk {
    files: BTreeMap<String, String>,
    directories: BTreeSet<String>,
    read_only: bool,
    asked: Vec<Request>,
}

fn directory_of(path: &str) -> String {
    match Path::new(path).parent() {
        Some(directory) => directory.to_str().unwrap().to_owned(),
        None => path.to_owned(),
    }
}

impl Disk {
    fn new() -> Disk {
        let mut directories = BTreeSet::new();
        directories.insert("/".to_owned());
        Disk { files: BTreeMap::new(), directories, read_only: false, asked: Vec::new() }
    }

    fn holding(path: &str, text: &str) -> Disk {
        let mut disk = Disk::new();
        for above in Path::new(path).ancestors().skip(1) {
            disk.directories.insert(above.to_str().unwrap().to_owned());
        }
        disk.files.insert(path.to_owned(), text.to_owned());
        disk
    }

    fn perform(&mut self, request: Request) -> Reply {
        self.asked.push(request.clone());
        match request {
            Request::ProbeFile { path } => Reply::Found(self.files.contains_key(&path)),
            Request::ReadFile { path } => Reply::Text(self.files.get(&path).cloned()),
            Request::Decode { text } => Reply::Decoded(decode(&text)),
            Request::Encode { content } => Reply::Encoded(encode(&content)),
            Request::ProbeParent { path } => {
                Reply::Found(self.directories.contains(&directory_of(&path)))
            }
            Request::CreateParent { path } => {
                if self.read_only {
                    return Reply::Created(false);
                }
                for above in Path::new(&path).ancestors().skip(1) {
                    self.directories.insert(above.to_str().unwrap().to_owned());
                }
                Reply::Created(true)
            }
            Request::WriteFile { path, text } => {
                if self.read_only || !self.directories.contains(&directory_of(&path)) {
                    return Reply::Written(false);
                }
                self.files.insert(path, text);
                Reply::Written(true)
            }
        }
    }

    fn open(&mut self, path: &str) -> Result<Config, Failure> {
        let mut startup = Config::new(path.to_owned());
        loop {
            let request = startup.request();
            let reply = self.perform(request.clone());
            assert!(reply.answers(&request));
            match startup.receive(reply) {
                Progress::Pending(next) => startup = next,
                Progress::Ready(config) => return Ok(config),
                Progress::Failed(failure) => return Err(failure),
            }
        }
    }

    fn save(&mut self, config: &mut Config, content: &Content) -> Result<(), Failure> {
        let mut save = config.write(content);
        loop {
            let request = save.request();
            let reply = self.perform(request.clone());
            assert!(reply.answers(&request));
            match save.receive(reply) {
                SaveProgress::Pending(next) => save = next,
                SaveProgress::Finished(outcome) => {
                    config.conclude(content.clone(), outcome);
                    return outcome;
                }
            }
        }
    }

    fn mutations(&self) -> usize {
        self.asked.iter().filter(|request| request.is_mutation()).count()
    }
}

fn content(version: u16, language: &str, theme: &str) -> Content {
    Content { version, language: language.to_owned(), theme: theme.to_owned() }
}

#[test]
fn first_start_creates_directory_and_file_with_defaults() {
    let mut disk = Disk::new();
    disk.directories.insert("/tmp".to_owned());
    let config = disk.open("/tmp/t1/config.json").unwrap();
    assert!(disk.directories.contains("/tmp/t1"));
    assert_eq!(
        disk.files.get("/tmp/t1/config.json").map(String::as_str),
        Some("{\"version\":1,\"language\":\"en\",\"theme\":\"dark\"}")
    );
    assert_eq!(config.get_content(), &content(1, "en", "dark"));
    assert_eq!(config.path(), "/tmp/t1/config.json");
    assert_eq!(
        disk.asked,
        vec![
            Request::ProbeFile { path: "/tmp/t1/config.json".to_owned() },
            Request::Encode { content: content(1, "en", "dark") },
            Request::ProbeParent { path: "/tmp/t1/config.json".to_owned() },
            Request::CreateParent { path: "/tmp/t1/config.json".to_owned() },
            Request::WriteFile {
                path: "/tmp/t1/config.json".to_owned(),
                text: "{\"version\":1,\"language\":\"en\",\"theme\":\"dark\"}".to_owned(),
            },
        ]
    );
}

#[test]
fn first_start_in_an_existing_directory_creates_only_the_file() {
    let mut disk = Disk::new();
    disk.directories.insert("/tmp".to_owned());
    disk.directories.insert("/tmp/t1".to_owned());
    let config = disk.open("/tmp/t1/config.json").unwrap();
    assert_eq!(config.get_content(), &Content::default());
    assert_eq!(disk.mutations(), 1);
    assert!(disk.files.contains_key("/tmp/t1/config.json"));
}

#[test]
fn first_start_on_a_disk_that_takes_no_file_gives_no_store() {
    let mut disk = Disk::new();
    disk.directories.insert("/tmp".to_owned());
    disk.directories.insert("/tmp/t1".to_owned());
    disk.read_only = true;
    assert_eq!(disk.open("/tmp/t1/config.json"), Err(Failure::FileWrite));
    assert!(disk.files.is_empty());
}

#[test]
fn a_store_from_a_first_start_always_has_its_file() {
    for read_only in [false, true] {
        for directory_there in [false, true] {
            let mut disk = Disk::new();
            disk.directories.insert("/tmp".to_owned());
            if directory_there {
                disk.directories.insert("/tmp/t1".to_owned());
            }
            disk.read_only = read_only;
            match disk.open("/tmp/t1/config.json") {
                Ok(config) => {
                    assert!(!read_only);
                    assert_eq!(config.get_content(), &Content::default());
                    let text = disk.files.get("/tmp/t1/config.json").unwrap();
                    assert_eq!(decode(text), Some(Content::default()));
                }
                Err(failure) => {
                    assert!(read_only);
                    let expected =
                        if directory_there { Failure::FileWrite } else { Failure::DirectoryCreation };
                    assert_eq!(failure, expected);
                    assert!(disk.files.is_empty());
                }
            }
        }
    }
}

#[test]
fn first_start_fails_where_the_directory_cannot_be_created() {
    let mut disk = Disk::new();
    disk.read_only = true;
    assert_eq!(disk.open("/tmp/t1/config.json"), Err(Failure::DirectoryCreation));
    assert!(disk.files.is_empty());
}

#[test]
fn existing_file_is_loaded_unchanged() {
    let text = "{\"version\":1,\"language\":\"de\",\"theme\":\"light\"}";
    let mut disk = Disk::holding("/tmp/t2/config.json", text);
    let config = disk.open("/tmp/t2/config.json").unwrap();
    assert_eq!(config.get_content().version, 1);
    assert_eq!(config.get_content().language, "de");
    assert_eq!(config.get_content().theme, "light");
    assert_eq!(disk.files.get("/tmp/t2/config.json").map(String::as_str), Some(text));
    assert_eq!(disk.mutations(), 0);
}

#[test]
fn pretty_printed_file_is_loaded() {
    let text = "{\n  \"version\": 1,\n  \"language\": \"en\",\n  \"theme\": \"dark\"\n}\n";
    let mut disk = Disk::holding("/tmp/t2/config.json", text);
    let config = disk.open("/tmp/t2/config.json").unwrap();
    assert_eq!(config.get_content(), &Content::default());
}

#[test]
fn file_of_version_zero_is_loaded_as_it_is() {
    let text = "{\"version\":0,\"language\":\"sv\",\"theme\":\"dark\"}";
    let mut disk = Disk::holding("/tmp/t2/config.json", text);
    let config = disk.open("/tmp/t2/config.json").unwrap();
    assert_eq!(config.get_content(), &content(0, "sv", "dark"));
    assert_eq!(disk.files.get("/tmp/t2/config.json").map(String::as_str), Some(text));
}

#[test]
fn file_of_version_99_is_refused_and_left_alone() {
    let text = "{\"version\":99,\"language\":\"en\",\"theme\":\"dark\"}";
    let mut disk = Disk::holding("/tmp/t3/config.json", text);
    assert_eq!(disk.open("/tmp/t3/config.json"), Err(Failure::FutureVersion));
    assert_eq!(disk.files.get("/tmp/t3/config.json").map(String::as_str), Some(text));
    assert_eq!(disk.files.len(), 1);
    assert_eq!(disk.mutations(), 0);
}

#[test]
fn file_of_version_two_is_refused() {
    let text = "{\"version\":2,\"language\":\"en\",\"theme\":\"dark\"}";
    let mut disk = Disk::holding("/tmp/t3/config.json", text);
    assert_eq!(disk.open("/tmp/t3/config.json"), Err(Failure::FutureVersion));
}

#[test]
fn file_with_broken_syntax_is_refused_and_not_overwritten() {
    let text = "{\"version\":1,\"language\":";
    let mut disk = Disk::holding("/tmp/t4/config.json", text);
    assert_eq!(disk.open("/tmp/t4/config.json"), Err(Failure::MalformedFile));
    assert_eq!(disk.files.get("/tmp/t4/config.json").map(String::as_str), Some(text));
    assert_eq!(disk.mutations(), 0);
}

#[test]
fn empty_file_is_refused_and_not_overwritten() {
    let mut disk = Disk::holding("/tmp/t4/config.json", "");
    assert_eq!(disk.open("/tmp/t4/config.json"), Err(Failure::MalformedFile));
    assert_eq!(disk.files.get("/tmp/t4/config.json").map(String::as_str), Some(""));
}

#[test]
fn file_without_a_field_is_refused() {
    let text = "{\"version\":1,\"language\":\"en\"}";
    let mut disk = Disk::holding("/tmp/t4/config.json", text);
    assert_eq!(disk.open("/tmp/t4/config.json"), Err(Failure::MalformedFile));
    assert_eq!(disk.mutations(), 0);
}

#[test]
fn what_is_saved_to_a_fresh_path_loads_back_equal() {
    let samples = vec![
        content(1, "en", "dark"),
        content(1, "de", "light"),
        content(0, "", ""),
        content(1, "zh-Hant", "say \"cheese\" \\ and\tmore\n"),
        content(1, "\u{e9}\u{1F600}", "\u{0}\u{1f}"),
    ];
    for (number, sample) in samples.into_iter().enumerate() {
        let path = format!("/srv/fresh/{}/config.json", number);
        let mut disk = Disk::new();
        let mut store = Config::accept(path.clone(), Content::default()).unwrap();
        assert_eq!(disk.save(&mut store, &sample), Ok(()));
        let loaded = disk.open(&path).unwrap();
        assert_eq!(loaded.get_content(), &sample);
        assert_eq!(loaded.path(), path);
    }
}

#[test]
fn a_newer_document_can_be_saved_but_not_loaded_back() {
    let mut disk = Disk::new();
    let mut store = Config::accept("/srv/config.json".to_owned(), Content::default()).unwrap();
    assert_eq!(disk.save(&mut store, &content(2, "en", "dark")), Ok(()));
    assert_eq!(disk.open("/srv/config.json"), Err(Failure::FutureVersion));
}

#[test]
fn saving_creates_all_missing_directories_above_the_file() {
    let mut disk = Disk::new();
    let mut store = Config::accept("/a/b/c/d/config.json".to_owned(), Content::default()).unwrap();
    assert_eq!(disk.save(&mut store, &content(1, "fr", "light")), Ok(()));
    for directory in ["/a", "/a/b", "/a/b/c", "/a/b/c/d"] {
        assert!(disk.directories.contains(directory), "{}", directory);
    }
    assert_eq!(
        disk.files.get("/a/b/c/d/config.json").map(String::as_str),
        Some("{\"version\":1,\"language\":\"fr\",\"theme\":\"light\"}")
    );
}

#[test]
fn saving_the_same_twice_gives_the_same_file_and_succeeds_twice() {
    let mut disk = Disk::new();
    let mut store = Config::accept("/srv/openseat/config.json".to_owned(), Content::default()).unwrap();
    let sample = content(1, "es", "light");
    assert_eq!(disk.save(&mut store, &sample), Ok(()));
    let first = disk.files.get("/srv/openseat/config.json").cloned();
    assert_eq!(disk.save(&mut store, &sample), Ok(()));
    let second = disk.files.get("/srv/openseat/config.json").cloned();
    assert!(first.is_some());
    assert_eq!(first, second);
    assert_eq!(disk.files.len(), 1);
}

#[test]
fn saving_replaces_what_the_file_held() {
    let mut disk = Disk::holding("/srv/config.json", "{\"version\":1,\"language\":\"de\",\"theme\":\"light\"}");
    let mut store = disk.open("/srv/config.json").unwrap();
    assert_eq!(disk.save(&mut store, &content(1, "en", "dark")), Ok(()));
    assert_eq!(
        disk.files.get("/srv/config.json").map(String::as_str),
        Some("{\"version\":1,\"language\":\"en\",\"theme\":\"dark\"}")
    );
}

#[test]
fn a_save_that_cannot_write_fails_and_the_store_stays_as_it_was() {
    let text = "{\"version\":1,\"language\":\"de\",\"theme\":\"light\"}";
    let mut disk = Disk::holding("/srv/config.json", text);
    let mut store = disk.open("/srv/config.json").unwrap();
    disk.read_only = true;
    assert_eq!(disk.save(&mut store, &content(1, "en", "dark")), Err(Failure::FileWrite));
    assert_eq!(store.get_content(), &content(1, "de", "light"));
    assert_eq!(disk.files.get("/srv/config.json").map(String::as_str), Some(text));
}

#[test]
fn a_save_that_cannot_create_the_directory_fails_fatally() {
    let mut disk = Disk::new();
    disk.read_only = true;
    let mut store = Config::accept("/srv/deep/config.json".to_owned(), Content::default()).unwrap();
    let outcome = disk.save(&mut store, &Content::default());
    assert_eq!(outcome, Err(Failure::DirectoryCreation));
    assert!(outcome.unwrap_err().is_fatal());
    assert!(disk.files.is_empty());
}

#[test]
fn the_store_holds_what_was_saved_and_so_does_the_file() {
    let mut disk = Disk::holding("/srv/config.json", "{\"version\":1,\"language\":\"de\",\"theme\":\"light\"}");
    let mut store = disk.open("/srv/config.json").unwrap();
    assert_eq!(store.get_content(), &content(1, "de", "light"));
    assert_eq!(disk.save(&mut store, &content(1, "en", "dark")), Ok(()));
    assert_eq!(store.get_content(), &content(1, "en", "dark"));
    assert_eq!(store.path(), "/srv/config.json");
    let text = disk.files.get("/srv/config.json").unwrap();
    assert_eq!(decode(text).as_ref(), Some(store.get_content()));
    let again = disk.open("/srv/config.json").unwrap();
    assert_eq!(again.get_content(), store.get_content());
}
