use std::collections::HashMap;

use typst_host::error::{HostError, PackageError, ResourceError};
use typst_host::hash::PathHash;
use typst_host::ident::{PackageSpec, ResourceId};
use typst_host::world::{Step, SystemWorld};

/// An in-memory host that counts its fetches.
struct Host {
    files: HashMap<String, Result<Vec<u8>, i64>>,
    calls: HashMap<String, usize>,
}

impl Host {
    fn new() -> Host {
        Host { files: HashMap::new(), calls: HashMap::new() }
    }

    fn put(&mut self, key: &str, bytes: &[u8]) {
        self.files.insert(key.to_string(), Ok(bytes.to_vec()));
    }

    fn fail(&mut self, key: &str, code: i64) {
        self.files.insert(key.to_string(), Err(code));
    }

    fn fetch(&mut self, key: &str) -> Result<Vec<u8>, HostError> {
        *self.calls.entry(key.to_string()).or_insert(0) += 1;
        match self.files.get(key) {
            Some(Ok(b)) => Ok(b.clone()),
            Some(Err(c)) => Err(HostError::Code(*c)),
            None => Err(HostError::Code(2)),
        }
    }

    fn calls(&self, key: &str) -> usize {
        self.calls.get(key).copied().unwrap_or(0)
    }
}

fn resolve(world: &mut SystemWorld, host: &mut Host, id: &ResourceId) -> Result<PathHash, ResourceError> {
    loop {
        match world.lookup(id) {
            Step::Ready(r) => return r,
            Step::FetchPackage(spec, key) => {
                let answer = host
                    .fetch(&key)
                    .map(|b| String::from_utf8(b).unwrap());
                world.supply_package(&spec, answer);
            }
            Step::FetchFile(key) => {
                let answer = host.fetch(&key);
                return world.supply_file(id, &key, answer);
            }
        }
    }
}

fn file(path: &str) -> ResourceId {
    ResourceId { package: None, path: path.to_string() }
}

fn preview(name: &str, path: &str) -> ResourceId {
    ResourceId {
        package: Some(PackageSpec {
            namespace: "preview".to_string(),
            name: name.to_string(),
            version: "0.1.0".to_string(),
        }),
        path: path.to_string(),
    }
}

#[test]
fn same_bytes_share_one_source() {
    let mut world = SystemWorld::new("/root".to_string());
    world.begin_compile("main".to_string(), "/main.typ".to_string());
    let mut host = Host::new();
    host.put("/root/a.typ", b"= Shared\n");
    host.put("/root/b.typ", b"= Shared\n");
    let a = file("/a.typ");
    let b = file("/b.typ");
    let ha = resolve(&mut world, &mut host, &a).unwrap();
    let hb = resolve(&mut world, &mut host, &b).unwrap();
    assert_eq!(ha, hb);
    let sa = world.source(&a).unwrap();
    let sb = world.source(&b).unwrap();
    assert_eq!(sa.text, "= Shared\n");
    assert_eq!(sa, sb);
    // The slot keeps the identifier that filled it first.
    assert_eq!(sb.id, a);
    resolve(&mut world, &mut host, &a).unwrap();
    resolve(&mut world, &mut host, &b).unwrap();
    assert_eq!(host.calls("/root/a.typ"), 1);
    assert_eq!(host.calls("/root/b.typ"), 1);
}

#[test]
fn not_found_is_fetched_once() {
    let mut world = SystemWorld::new("/root".to_string());
    world.begin_compile("main".to_string(), "/main.typ".to_string());
    let mut host = Host::new();
    let x = file("/missing.typ");
    let first = resolve(&mut world, &mut host, &x);
    let second = resolve(&mut world, &mut host, &x);
    assert_eq!(first, Err(ResourceError::NotFound("/root/missing.typ".to_string())));
    assert_eq!(second, first);
    assert_eq!(host.calls("/root/missing.typ"), 1);
    assert_eq!(world.source(&x), Err(ResourceError::NotFound("/root/missing.typ".to_string())));
}

#[test]
fn new_compilation_fetches_again() {
    let mut world = SystemWorld::new("/root".to_string());
    let mut host = Host::new();
    host.put("/root/lib.typ", b"#let v = 1");
    let lib = file("/lib.typ");
    world.begin_compile("first".to_string(), "/main.typ".to_string());
    resolve(&mut world, &mut host, &lib).unwrap();
    resolve(&mut world, &mut host, &lib).unwrap();
    assert_eq!(host.calls("/root/lib.typ"), 1);
    world.begin_compile("second".to_string(), "/main.typ".to_string());
    assert!(matches!(world.lookup(&lib), Step::FetchFile(_)));
    resolve(&mut world, &mut host, &lib).unwrap();
    assert_eq!(host.calls("/root/lib.typ"), 2);
    let main = world.main();
    assert_eq!(world.source(&main).unwrap().text, "second");
}

#[test]
fn main_text_is_served_without_fetch() {
    let mut world = SystemWorld::new("/root".to_string());
    let main = world.begin_compile("héllo".to_string(), "/main.typ".to_string());
    assert_eq!(main, file("/main.typ"));
    assert_eq!(world.main(), main);
    assert!(matches!(world.lookup(&main), Step::Ready(Ok(_))));
    assert_eq!(world.file(&main).unwrap(), "héllo".as_bytes().to_vec());
    assert_eq!(world.source(&main).unwrap().text, "héllo");
}

#[test]
fn main_and_fetched_copy_share_a_slot() {
    let mut world = SystemWorld::new("/root".to_string());
    let main = world.begin_compile("same".to_string(), "/main.typ".to_string());
    let mut host = Host::new();
    host.put("/root/copy.typ", b"same");
    let copy = file("/copy.typ");
    assert_eq!(resolve(&mut world, &mut host, &copy), Ok(PathHash::new("same")));
    assert_eq!(world.source(&copy).unwrap().id, main);
}

#[test]
fn bytes_of_fetched_file() {
    let mut world = SystemWorld::new("/root".to_string());
    world.begin_compile("main".to_string(), "/main.typ".to_string());
    let mut host = Host::new();
    host.put("/root/img.bin", &[0u8, 159, 146, 150]);
    let img = file("/img.bin");
    resolve(&mut world, &mut host, &img).unwrap();
    assert_eq!(world.file(&img).unwrap(), vec![0u8, 159, 146, 150]);
    assert_eq!(world.source(&img), Err(ResourceError::InvalidEncoding));
}

#[test]
fn path_leaving_root_is_denied() {
    let mut world = SystemWorld::new("/root".to_string());
    world.begin_compile("main".to_string(), "/main.typ".to_string());
    let mut host = Host::new();
    let escape = file("/../secret.typ");
    assert_eq!(resolve(&mut world, &mut host, &escape), Err(ResourceError::AccessDenied));
    assert!(host.calls.is_empty());
}

#[test]
fn host_codes_are_classified() {
    let mut world = SystemWorld::new("/root".to_string());
    world.begin_compile("main".to_string(), "/main.typ".to_string());
    let mut host = Host::new();
    host.fail("/root/denied.typ", 3);
    host.fail("/root/dir", 4);
    host.fail("/root/odd.typ", 9);
    assert_eq!(resolve(&mut world, &mut host, &file("/denied.typ")), Err(ResourceError::AccessDenied));
    assert_eq!(resolve(&mut world, &mut host, &file("/dir")), Err(ResourceError::IsDirectory));
    assert_eq!(
        resolve(&mut world, &mut host, &file("/odd.typ")),
        Err(ResourceError::Other("see external diagnostics".to_string()))
    );
}

#[test]
fn host_messages_are_kept() {
    let mut world = SystemWorld::new("/root".to_string());
    world.begin_compile("main".to_string(), "/main.typ".to_string());
    let id = file("/a.typ");
    let key = match world.lookup(&id) {
        Step::FetchFile(k) => k,
        other => panic!("unexpected {:?}", other),
    };
    assert_eq!(key, "/root/a.typ");
    let r = world.supply_file(&id, &key, Err(HostError::Message("offline".to_string())));
    assert_eq!(r, Err(ResourceError::Other("offline".to_string())));
    let id2 = file("/b.typ");
    let key2 = match world.lookup(&id2) {
        Step::FetchFile(k) => k,
        other => panic!("unexpected {:?}", other),
    };
    let r2 = world.supply_file(&id2, &key2, Err(HostError::Opaque));
    assert_eq!(r2, Err(ResourceError::Other("see external diagnostics".to_string())));
}

#[test]
fn package_files_resolve_under_package_root() {
    let mut world = SystemWorld::new("/root".to_string());
    world.begin_compile("main".to_string(), "/main.typ".to_string());
    let mut host = Host::new();
    host.put("@preview/pkg/0.1.0", b"/pkgs/pkg");
    host.put("/pkgs/pkg/lib.typ", b"#let f = 2");
    let lib = preview("pkg", "/lib.typ");
    match world.lookup(&lib) {
        Step::FetchPackage(spec, key) => {
            assert_eq!(key, "@preview/pkg/0.1.0");
            assert_eq!(spec.name, "pkg");
        }
        other => panic!("unexpected {:?}", other),
    }
    resolve(&mut world, &mut host, &lib).unwrap();
    assert_eq!(world.source(&lib).unwrap().text, "#let f = 2");
    let other = preview("pkg", "/other.typ");
    host.put("/pkgs/pkg/other.typ", b"x");
    resolve(&mut world, &mut host, &other).unwrap();
    assert_eq!(host.calls("@preview/pkg/0.1.0"), 1);
}

#[test]
fn missing_package_is_cached() {
    let mut world = SystemWorld::new("/root".to_string());
    world.begin_compile("main".to_string(), "/main.typ".to_string());
    let mut host = Host::new();
    let a = preview("gone", "/a.typ");
    let b = preview("gone", "/b.typ");
    let spec = a.package.clone().unwrap();
    let expected = Err(ResourceError::Package(PackageError::NotFound(spec)));
    assert_eq!(resolve(&mut world, &mut host, &a), expected);
    assert_eq!(resolve(&mut world, &mut host, &b), expected);
    assert_eq!(resolve(&mut world, &mut host, &a), expected);
    assert_eq!(host.calls("@preview/gone/0.1.0"), 1);
}

#[test]
fn package_other_errors() {
    let mut world = SystemWorld::new("/root".to_string());
    world.begin_compile("main".to_string(), "/main.typ".to_string());
    let spec = PackageSpec {
        namespace: "preview".to_string(),
        name: "flaky".to_string(),
        version: "1.0.0".to_string(),
    };
    assert_eq!(
        world.supply_package(&spec, Err(HostError::Code(5))),
        Err(PackageError::Other("see external diagnostics".to_string()))
    );
    let spec2 = PackageSpec { name: "down".to_string(), ..spec.clone() };
    assert_eq!(
        world.supply_package(&spec2, Err(HostError::Message("no network".to_string()))),
        Err(PackageError::Other("no network".to_string()))
    );
    assert_eq!(spec.key(), "@preview/flaky/1.0.0");
    assert_eq!(spec.label(), "@preview/flaky:1.0.0");
}

#[test]
fn labels_of_identifiers() {
    assert_eq!(file("/main.typ").label(), "/main.typ");
    assert_eq!(preview("pkg", "/lib.typ").label(), "@preview/pkg:0.1.0/lib.typ");
    assert!(file("/a").same_as(&file("/a")));
    assert!(!file("/a").same_as(&preview("a", "/a")));
}

#[test]
fn hashes_follow_content() {
    assert_eq!(PathHash::new("abc"), PathHash::new("abc"));
    assert_ne!(PathHash::new("abc"), PathHash::new("abd"));
    assert_eq!(PathHash::new("abc"), PathHash::of_bytes(b"abc"));
    assert_ne!(PathHash::of_bytes(b""), PathHash(0));
}
