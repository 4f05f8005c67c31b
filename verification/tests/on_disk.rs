use netcoredbg_resolver::binary_manager::BinaryManager;
use netcoredbg_resolver::error::{ErrorKind, ResolveError};
use netcoredbg_resolver::platform::{Architecture, Os};
use netcoredbg_resolver::protocol::{Action, Event, PathKind};
use netcoredbg_resolver::release::{Release, ReleaseAsset};
use std::path::{Path, PathBuf};

/// A host that works on real directories. A temporary directory stands for
/// the working directory, and the download is replaced by unpacking an
/// archive whose only content is the file named here, at its root.
struct DiskHost {
    working_dir: tempfile::TempDir,
    temp_dir: Option<tempfile::TempDir>,
    archive_content: &'static str,
    requests: Vec<Action>,
}

impl DiskHost {
    fn new(archive_content: &'static str) -> DiskHost {
        DiskHost {
            working_dir: tempfile::tempdir().expect("a working directory"),
            temp_dir: None,
            archive_content,
            requests: vec![],
        }
    }

    fn place(&self, path: &str) -> PathBuf {
        self.working_dir.path().join(path)
    }

    fn look(&self, path: &str) -> PathKind {
        let place = self.place(path);
        if !place.exists() {
            PathKind::Missing
        } else if place.is_file() {
            PathKind::File
        } else {
            PathKind::Other
        }
    }

    fn completed<T, E: ToString>(result: Result<T, E>) -> Event {
        Event::Completed { result: result.map(|_| ()).map_err(|e| e.to_string()) }
    }

    fn answer(&mut self, action: &Action) -> Event {
        match action {
            Action::Probe { path } => Event::Path { kind: self.look(path) },
            Action::Absolutize { path } => Event::Absolute {
                path: Ok(self.place(path).to_string_lossy().to_string()),
            },
            Action::FetchLatestRelease { .. } => Event::Release {
                release: Ok(Release {
                    version: "3.1.0".to_string(),
                    assets: vec![ReleaseAsset {
                        name: "netcoredbg-linux-amd64.tar.gz".to_string(),
                        download_url: "https://example.org/netcoredbg-linux-amd64.tar.gz"
                            .to_string(),
                    }],
                }),
            },
            Action::DetectPlatform => Event::Platform { os: Os::Linux, arch: Architecture::X8664 },
            Action::CreateTempDir { prefix } => {
                match tempfile::Builder::new().prefix(prefix.as_str()).tempdir() {
                    Ok(dir) => {
                        let path = dir.path().to_string_lossy().to_string();
                        self.temp_dir = Some(dir);
                        Event::TempDir { path: Ok(path) }
                    }
                    Err(e) => Event::TempDir { path: Err(e.to_string()) },
                }
            }
            Action::Download { destination, .. } => {
                let unpacked = tempfile::Builder::new()
                    .prefix(self.archive_content)
                    .rand_bytes(0)
                    .tempfile_in(destination);
                match unpacked {
                    Ok(file) => DiskHost::completed(file.keep()),
                    Err(e) => Event::Completed { result: Err(e.to_string()) },
                }
            }
            Action::CreateDir { path } => {
                DiskHost::completed(fs_extra::dir::create_all(self.place(path), false))
            }
            Action::CopyContents { from, to, content_only } => {
                let options = fs_extra::dir::CopyOptions::new().content_only(*content_only);
                DiskHost::completed(fs_extra::dir::copy(from, self.place(to), &options))
            }
            Action::MakeExecutable { path } => {
                assert_eq!(self.look(path), PathKind::File);
                Event::Completed { result: Ok(()) }
            }
            Action::RemoveTempDir { path } => {
                let dir = self.temp_dir.take().expect("a temporary directory to remove");
                assert_eq!(dir.path(), Path::new(path));
                DiskHost::completed(dir.close())
            }
            Action::Finish { .. } => panic!("a finished resolution asks for nothing"),
        }
    }

    fn resolve(
        &mut self,
        manager: &mut BinaryManager,
        user_provided_path: Option<String>,
    ) -> Result<String, ResolveError> {
        self.requests.clear();
        let mut resolution = manager.get_binary_path(user_provided_path);
        loop {
            let action = resolution.action();
            if let Action::Finish { result } = action {
                return result;
            }
            let event = self.answer(&action);
            self.requests.push(action);
            resolution = manager.resume(resolution, event);
        }
    }

    fn temp_dir_of_latest_download(&self) -> PathBuf {
        for action in &self.requests {
            if let Action::RemoveTempDir { path } = action {
                return PathBuf::from(path);
            }
        }
        panic!("no temporary directory was in use");
    }

    fn downloads(&self) -> usize {
        self.requests.iter().filter(|a| matches!(a, Action::Download { .. })).count()
    }
}

#[test]
fn download_puts_executable_directly_into_version_dir() {
    let mut host = DiskHost::new("netcoredbg");
    let mut manager = BinaryManager::new();
    let result = host.resolve(&mut manager, None).expect("the download succeeds");
    let expected = host.place("netcoredbg_v3.1.0").join("netcoredbg");
    assert_eq!(PathBuf::from(&result), expected);
    assert!(Path::new(&result).is_absolute());
    assert!(expected.is_file());
    assert_eq!(host.downloads(), 1);
    // Only the contents were copied: the temporary directory's name is no part of the path.
    let temp_dir = host.temp_dir_of_latest_download();
    let temp_name = temp_dir.file_name().expect("the temporary directory has a name");
    assert!(temp_name.to_string_lossy().starts_with("netcoredbg_v3.1.0_"));
    assert!(!host.place("netcoredbg_v3.1.0").join(temp_name).exists());
    // The temporary directory is gone.
    assert!(!temp_dir.exists());
    assert!(host.temp_dir.is_none());
    assert_eq!(manager.cached_binary_path(), Some(result));
}

#[test]
fn second_resolution_reads_the_cache_and_third_the_disk() {
    let mut host = DiskHost::new("netcoredbg");
    let mut manager = BinaryManager::new();
    let first = host.resolve(&mut manager, None).expect("the download succeeds");
    let second = host.resolve(&mut manager, None).expect("the cached path is there");
    assert_eq!(second, first);
    assert_eq!(host.requests, vec![Action::Probe { path: first.clone() }]);
    // A manager that remembers nothing finds the release unpacked.
    let mut fresh = BinaryManager::new();
    let third = host.resolve(&mut fresh, None).expect("the release is on disk");
    assert_eq!(third, first);
    assert_eq!(host.downloads(), 0);
    assert_eq!(host.requests.len(), 4);
    assert_eq!(fresh.cached_binary_path(), Some(first));
}

#[test]
fn archive_without_the_executable_leaves_no_temp_dir() {
    let mut host = DiskHost::new("README");
    let mut manager = BinaryManager::new();
    let error = host.resolve(&mut manager, None).unwrap_err();
    assert_eq!(error.kind, ErrorKind::BinaryNotFoundAfterExtraction);
    assert_eq!(
        error.message,
        "netcoredbg executable not found at: netcoredbg_v3.1.0/netcoredbg"
    );
    assert!(host.place("netcoredbg_v3.1.0").join("README").is_file());
    assert!(!host.temp_dir_of_latest_download().exists());
    assert_eq!(manager.cached_binary_path(), None);
}

#[test]
fn user_paths_on_disk() {
    let mut host = DiskHost::new("netcoredbg");
    let mut manager = BinaryManager::new();
    let installed = host.resolve(&mut manager, None).expect("the download succeeds");
    // An absolute path to a file comes back as it is.
    assert_eq!(host.resolve(&mut manager, Some(installed.clone())), Ok(installed.clone()));
    // A relative path to a file comes back in absolute form.
    assert_eq!(
        host.resolve(&mut manager, Some("netcoredbg_v3.1.0/netcoredbg".to_string())),
        Ok(installed.clone())
    );
    assert_eq!(host.downloads(), 0);
    // A directory is not a file, and what is not there is not found.
    let error = host.resolve(&mut manager, Some("netcoredbg_v3.1.0".to_string())).unwrap_err();
    assert_eq!(error.kind, ErrorKind::NotAFile);
    let error = host.resolve(&mut manager, Some("netcoredbg_v9".to_string())).unwrap_err();
    assert_eq!(error.kind, ErrorKind::NotFound);
    let kind = host.look(&installed);
    assert_eq!(manager.validate_binary(&installed, kind), Ok(()));
    let kind = host.look("netcoredbg_v3.1.0");
    assert_eq!(
        manager.validate_binary("netcoredbg_v3.1.0", kind).unwrap_err().kind,
        ErrorKind::NotAFile
    );
}

#[test]
fn copy_of_the_directory_itself_would_nest() {
    let mut host = DiskHost::new("netcoredbg");
    let created = host.answer(&Action::CreateTempDir { prefix: "netcoredbg_v3.1.0_".to_string() });
    let Event::TempDir { path: Ok(temp_dir) } = created else {
        panic!("no temporary directory");
    };
    let unpack = Action::Download {
        url: String::new(),
        destination: temp_dir.clone(),
        kind: netcoredbg_resolver::platform::ArchiveKind::GzipTar,
    };
    assert_eq!(host.answer(&unpack), Event::Completed { result: Ok(()) });
    for (to, content_only) in [("flat", true), ("nested", false)] {
        let create = Action::CreateDir { path: to.to_string() };
        assert_eq!(host.answer(&create), Event::Completed { result: Ok(()) });
        let copy = Action::CopyContents {
            from: temp_dir.clone(),
            to: to.to_string(),
            content_only,
        };
        assert_eq!(host.answer(&copy), Event::Completed { result: Ok(()) });
    }
    let temp_name = Path::new(&temp_dir).file_name().expect("a name").to_os_string();
    assert!(host.place("flat").join("netcoredbg").is_file());
    assert!(!host.place("nested").join("netcoredbg").exists());
    assert!(host.place("nested").join(temp_name).join("netcoredbg").is_file());
}
