use fuseisk::cstr::Utf8CStr;
use fuseisk::dir::{child, is_dot_name, Directory};
use fuseisk::file::{
    check_realpath, clone_attr, fclone_attr, fd_get_attr, fd_get_secontext, fd_path, fd_set_attr,
    fd_set_secontext, open_fd, FileAttr,
};
use fuseisk::mapped::{map_fd, map_file, map_file_at, MappedFile};
use fuseisk::sys::{
    OsError, Replay, Reply, Stat, Step, Syscall, AT_FDCWD, EEXIST, ENODATA, ENOENT, EPROTO,
    MAP_PRIVATE, MAP_SHARED, MNT_DETACH, MS_BIND, MS_REC, O_CLOEXEC, O_CREAT, O_PATH, O_RDONLY,
    O_RDWR, O_TRUNC, O_WRONLY, PROT_READ, PROT_WRITE, S_IFBLK, S_IFCHR, S_IFDIR, S_IFIFO, S_IFLNK,
    S_IFREG, S_IFSOCK,
};
use std::collections::BTreeMap;

type Call = Syscall<Utf8CStr>;
type Outcome<T> = Result<T, OsError<Utf8CStr>>;

const ENOTDIR: i32 = 20;
const EINVAL: i32 = 22;
const ENOTEMPTY: i32 = 39;
const EPERM: i32 = 1;
const EBADF: i32 = 9;

fn p(s: &str) -> Utf8CStr {
    Utf8CStr::new(s).unwrap()
}

fn ok() -> Reply {
    Reply::Ret { ret: 0, errno: 0 }
}

fn fail(errno: i32) -> Reply {
    Reply::Ret { ret: -1, errno }
}

fn stat(kind: u32, perm: u32, ino: u64) -> Stat {
    Stat { st_mode: kind | perm, st_uid: 0, st_gid: 0, st_rdev: 0, st_dev: 1, st_ino: ino, st_size: 0 }
}

fn os_err(code: i32, name: &'static str, arg1: Option<&str>, arg2: Option<&str>) -> OsError<Utf8CStr> {
    OsError { code, name, arg1: arg1.map(p), arg2: arg2.map(p) }
}

/// The step of `op` after the replies `seen`, and how many of them it read.
fn step<T>(seen: &Vec<Reply>, op: impl Fn(&mut Replay) -> Step<T, Utf8CStr>) -> (Step<T, Utf8CStr>, usize) {
    let mut io = Replay::new(seen);
    let next = op(&mut io);
    (next, io.at)
}

/// The calls that `op` makes when it is answered with `replies` in turn, and
/// its result if the replies suffice.
fn script<T>(
    replies: Vec<Reply>,
    op: impl Fn(&mut Replay) -> Step<T, Utf8CStr>,
) -> (Vec<Call>, Option<Outcome<T>>) {
    let mut seen: Vec<Reply> = Vec::new();
    let mut calls = Vec::new();
    let mut rest = replies.into_iter();
    loop {
        match step(&seen, &op).0 {
            Step::Done(r) => return (calls, Some(r)),
            Step::Call(c) => {
                calls.push(c);
                match rest.next() {
                    Some(reply) => seen.push(reply),
                    None => return (calls, None),
                }
            }
        }
    }
}

#[derive(Clone, Debug, PartialEq)]
enum Node {
    Dir,
    File(Vec<u8>),
    Link(String),
}

#[derive(Clone, Debug, PartialEq)]
struct Entry {
    node: Node,
    perm: u32,
    uid: u32,
    gid: u32,
    label: String,
    ino: u64,
}

/// A filesystem in memory that answers the calls of the library.
struct Os {
    files: BTreeMap<String, Entry>,
    fds: BTreeMap<i32, String>,
    next_fd: i32,
    next_ino: u64,
    log: Vec<Call>,
    busy: Vec<String>,
}

impl Os {
    fn new() -> Os {
        let mut os = Os {
            files: BTreeMap::new(),
            fds: BTreeMap::new(),
            next_fd: 3,
            next_ino: 100,
            log: Vec::new(),
            busy: Vec::new(),
        };
        os.put("/", Node::Dir, 0o755);
        os
    }

    fn put(&mut self, path: &str, node: Node, perm: u32) {
        let ino = self.next_ino;
        self.next_ino += 1;
        self.files.insert(
            path.to_string(),
            Entry { node, perm, uid: 0, gid: 0, label: String::new(), ino },
        );
    }

    fn parent(path: &str) -> String {
        match path.rfind('/') {
            Some(0) => "/".to_string(),
            Some(i) => path[..i].to_string(),
            None => "/".to_string(),
        }
    }

    fn children(&self, dir: &str) -> Vec<String> {
        let prefix = if dir.ends_with('/') { dir.to_string() } else { format!("{}/", dir) };
        self.files
            .keys()
            .filter(|k| k.starts_with(&prefix) && k.len() > prefix.len() && !k[prefix.len()..].contains('/'))
            .map(|k| k[prefix.len()..].to_string())
            .collect()
    }

    fn follow(&self, path: &str) -> Option<String> {
        let mut at = path.to_string();
        for _ in 0..8 {
            match self.files.get(&at) {
                Some(Entry { node: Node::Link(target), .. }) => {
                    at = if target.starts_with('/') {
                        target.clone()
                    } else {
                        format!("{}/{}", Os::parent(&at).trim_end_matches('/'), target)
                    };
                }
                Some(_) => return Some(at),
                None => return None,
            }
        }
        None
    }

    fn stat_of(&self, e: &Entry) -> Stat {
        let (kind, size) = match &e.node {
            Node::Dir => (S_IFDIR, 0),
            Node::File(b) => (S_IFREG, b.len() as i64),
            Node::Link(t) => (S_IFLNK, t.len() as i64),
        };
        Stat {
            st_mode: kind | e.perm,
            st_uid: e.uid,
            st_gid: e.gid,
            st_rdev: 0,
            st_dev: 1,
            st_ino: e.ino,
            st_size: size,
        }
    }

    fn label_reply(&self, path: Option<String>) -> Reply {
        match path.and_then(|p| self.files.get(&p)) {
            None => fail(ENOENT),
            Some(e) if e.label.is_empty() => fail(ENODATA),
            Some(e) => Reply::Text(p(&e.label)),
        }
    }

    fn perform(&mut self, call: &Call) -> Reply {
        self.log.push(call.clone());
        match call {
            Syscall::Lstat(path) => match self.files.get(path.as_str()) {
                Some(e) => Reply::Stat(self.stat_of(e)),
                None => fail(ENOENT),
            },
            Syscall::Stat(path) => match self.follow(path.as_str()).and_then(|t| self.files.get(&t)) {
                Some(e) => Reply::Stat(self.stat_of(e)),
                None => fail(ENOENT),
            },
            Syscall::Fstat(fd) => match self.fds.get(fd).and_then(|t| self.files.get(t)) {
                Some(e) => Reply::Stat(self.stat_of(e)),
                None => fail(EBADF),
            },
            Syscall::Mkdir(path, mode) => {
                if self.files.contains_key(path.as_str()) {
                    fail(EEXIST)
                } else if !matches!(
                    self.files.get(&Os::parent(path.as_str())),
                    Some(Entry { node: Node::Dir, .. })
                ) {
                    fail(ENOENT)
                } else {
                    self.put(path.as_str(), Node::Dir, mode & 0o777);
                    ok()
                }
            }
            Syscall::Chmod(path, mode) => match self.follow(path.as_str()) {
                Some(t) => {
                    self.files.get_mut(&t).unwrap().perm = mode & 0o777;
                    ok()
                }
                None => fail(ENOENT),
            },
            Syscall::Lchown(path, uid, gid) => match self.files.get_mut(path.as_str()) {
                Some(e) => {
                    e.uid = *uid;
                    e.gid = *gid;
                    ok()
                }
                None => fail(ENOENT),
            },
            Syscall::Remove(path) => match self.files.get(path.as_str()) {
                None => fail(ENOENT),
                Some(e) => {
                    if e.node == Node::Dir && !self.children(path.as_str()).is_empty() {
                        fail(ENOTEMPTY)
                    } else {
                        self.files.remove(path.as_str());
                        ok()
                    }
                }
            },
            Syscall::Rename(from, to) => {
                if !self.files.contains_key(from.as_str()) {
                    return fail(ENOENT);
                }
                let moved: Vec<String> = self
                    .files
                    .keys()
                    .filter(|k| {
                        k.as_str() == from.as_str() || k.starts_with(&format!("{}/", from.as_str()))
                    })
                    .cloned()
                    .collect();
                for k in moved {
                    let e = self.files.remove(&k).unwrap();
                    self.files.insert(format!("{}{}", to.as_str(), &k[from.as_str().len()..]), e);
                }
                ok()
            }
            Syscall::Symlink { target, link } => {
                if self.files.contains_key(link.as_str()) {
                    fail(EEXIST)
                } else {
                    self.put(link.as_str(), Node::Link(target.as_str().to_string()), 0o777);
                    ok()
                }
            }
            Syscall::Link(from, to) => match self.files.get(from.as_str()).cloned() {
                None => fail(ENOENT),
                Some(e) => {
                    if self.files.contains_key(to.as_str()) {
                        fail(EEXIST)
                    } else {
                        self.files.insert(to.as_str().to_string(), e);
                        ok()
                    }
                }
            },
            Syscall::Readlink(path) => match self.files.get(path.as_str()) {
                Some(Entry { node: Node::Link(t), .. }) => Reply::Text(p(t)),
                Some(_) => fail(EINVAL),
                None => fail(ENOENT),
            },
            Syscall::ReadDir(path) => match self.files.get(path.as_str()) {
                Some(Entry { node: Node::Dir, .. }) => {
                    let mut names = vec![p("."), p("..")];
                    names.extend(self.children(path.as_str()).iter().map(|n| p(n)));
                    Reply::Names(names)
                }
                Some(_) => fail(ENOTDIR),
                None => fail(ENOENT),
            },
            Syscall::ReadFile(path) => match self.files.get(path.as_str()) {
                Some(Entry { node: Node::File(b), .. }) => {
                    Reply::Content(String::from_utf8(b.clone()).unwrap())
                }
                _ => fail(ENOENT),
            },
            Syscall::LgetLabel(path) => self.label_reply(Some(path.as_str().to_string())),
            Syscall::GetLabel(path) => self.label_reply(self.follow(path.as_str())),
            Syscall::FgetLabel(fd) => self.label_reply(self.fds.get(fd).cloned()),
            Syscall::LsetLabel { path, label } => match self.files.get_mut(path.as_str()) {
                Some(e) => {
                    e.label = label.as_str().to_string();
                    ok()
                }
                None => fail(ENOENT),
            },
            Syscall::FsetLabel { fd, label } => {
                match self.fds.get(fd).cloned().and_then(|t| self.files.get_mut(&t)) {
                    Some(e) => {
                        e.label = label.as_str().to_string();
                        ok()
                    }
                    None => fail(EBADF),
                }
            }
            Syscall::Fchmod(fd, mode) => {
                match self.fds.get(fd).cloned().and_then(|t| self.files.get_mut(&t)) {
                    Some(e) => {
                        e.perm = mode & 0o777;
                        ok()
                    }
                    None => fail(EBADF),
                }
            }
            Syscall::Fchown(fd, uid, gid) => {
                match self.fds.get(fd).cloned().and_then(|t| self.files.get_mut(&t)) {
                    Some(e) => {
                        e.uid = *uid;
                        e.gid = *gid;
                        ok()
                    }
                    None => fail(EBADF),
                }
            }
            Syscall::Open(path, flags, mode) => self.open(path.as_str(), *flags, *mode),
            Syscall::Openat(_, path, flags) => self.open(path.as_str(), *flags, 0),
            Syscall::Close(fd) => match self.fds.remove(fd) {
                Some(_) => ok(),
                None => fail(EBADF),
            },
            Syscall::CopyData(from, to) => {
                let src = self.fds.get(from).and_then(|t| self.files.get(t)).cloned();
                let dst = self.fds.get(to).cloned();
                match (src, dst) {
                    (Some(Entry { node: Node::File(bytes), .. }), Some(dst)) => {
                        self.files.get_mut(&dst).unwrap().node = Node::File(bytes);
                        ok()
                    }
                    _ => fail(EBADF),
                }
            }
            Syscall::Umount2(path, _) => {
                if self.busy.iter().any(|b| b == path.as_str()) {
                    fail(EINVAL)
                } else {
                    ok()
                }
            }
            Syscall::Execve(_) => fail(ENOENT),
            Syscall::Mmap { .. } => Reply::Ret { ret: 0x7000_0000, errno: 0 },
            Syscall::PatchMapped { .. } => Reply::Ret { ret: 1, errno: 0 },
            _ => ok(),
        }
    }

    fn open(&mut self, path: &str, flags: i32, mode: u32) -> Reply {
        let target = match self.follow(path) {
            Some(t) => t,
            None => {
                if flags & O_CREAT == 0 {
                    return fail(ENOENT);
                }
                self.put(path, Node::File(Vec::new()), mode & 0o777);
                path.to_string()
            }
        };
        if flags & O_TRUNC != 0 {
            if let Node::File(b) = &mut self.files.get_mut(&target).unwrap().node {
                b.clear();
            }
        }
        let fd = self.next_fd;
        self.next_fd += 1;
        self.fds.insert(fd, target);
        Reply::Ret { ret: fd as i64, errno: 0 }
    }
}

/// Runs `op` to its end against `os`: makes each call that it names and
/// records the reply.
fn drive<T>(os: &mut Os, op: impl Fn(&mut Replay) -> Step<T, Utf8CStr>) -> Outcome<T> {
    let mut seen: Vec<Reply> = Vec::new();
    loop {
        match step(&seen, &op).0 {
            Step::Done(r) => return r,
            Step::Call(c) => {
                let reply = os.perform(&c);
                seen.push(reply);
            }
        }
    }
}

#[test]
fn mkdirs_twice_succeeds_and_keeps_the_mode() {
    let mut os = Os::new();
    let path = p("/a/b/c");
    assert_eq!(drive(&mut os, |io| path.mkdirs(0o750, io)), Ok(()));
    assert_eq!(os.files["/a"].perm, 0o750);
    assert_eq!(os.files["/a/b"].perm, 0o750);
    assert_eq!(os.files["/a/b/c"].perm, 0o750);
    assert_eq!(os.files["/a/b/c"].node, Node::Dir);
    let after_first = os.files.clone();
    assert_eq!(drive(&mut os, |io| path.mkdirs(0o750, io)), Ok(()));
    assert_eq!(os.files["/a/b/c"].perm, 0o750);
    assert_eq!(os.files, after_first);
    assert_eq!(
        os.log,
        vec![
            Syscall::Mkdir(p("/a"), 0o750),
            Syscall::Mkdir(p("/a/b"), 0o750),
            Syscall::Mkdir(p("/a/b/c"), 0o750),
            Syscall::Mkdir(p("/a"), 0o750),
            Syscall::Mkdir(p("/a/b"), 0o750),
            Syscall::Mkdir(p("/a/b/c"), 0o750),
        ]
    );
}

#[test]
fn mkdirs_passes_over_existing_directories_without_touching_them() {
    let mut os = Os::new();
    os.put("/a", Node::Dir, 0o700);
    assert_eq!(drive(&mut os, |io| p("/a/b").mkdirs(0o755, io)), Ok(()));
    assert_eq!(os.files["/a"].perm, 0o700);
    assert_eq!(os.files["/a/b"].perm, 0o755);
}

#[test]
fn mkdirs_takes_components_apart() {
    assert_eq!(p("/a/b/c").ancestor_dirs(), vec![p("/a"), p("/a/b"), p("/a/b/c")]);
    assert_eq!(p("a/b").ancestor_dirs(), vec![p("a"), p("a/b")]);
    assert_eq!(p("//a///b//").ancestor_dirs(), vec![p("/a"), p("/a/b")]);
    assert_eq!(p("/").ancestor_dirs(), Vec::<Utf8CStr>::new());
    assert_eq!(p("").ancestor_dirs(), Vec::<Utf8CStr>::new());
    assert_eq!(p("x").ancestor_dirs(), vec![p("x")]);
}

#[test]
fn mkdirs_of_empty_path_makes_no_call() {
    let (calls, result) = script(vec![], |io| p("").mkdirs(0o755, io));
    assert!(calls.is_empty());
    assert_eq!(result, Some(Ok(())));
}

#[test]
fn mkdirs_surfaces_the_first_other_failure() {
    let (calls, result) =
        script(vec![fail(EEXIST), fail(EPERM), ok()], |io| p("/a/b/c").mkdirs(0o755, io));
    assert_eq!(calls, vec![Syscall::Mkdir(p("/a"), 0o755), Syscall::Mkdir(p("/a/b"), 0o755)]);
    assert_eq!(result, Some(Err(os_err(EPERM, "mkdir", Some("/a/b"), None))));
}

#[test]
fn mkdir_makes_the_directory() {
    let mut os = Os::new();
    assert_eq!(drive(&mut os, |io| p("/d").mkdir(0o711, io)), Ok(()));
    assert_eq!(os.files["/d"].perm, 0o711);
    assert_eq!(os.log, vec![Syscall::Mkdir(p("/d"), 0o711)]);
}

#[test]
fn mkdir_repairs_the_mode_of_an_existing_directory() {
    let mut os = Os::new();
    os.put("/d", Node::Dir, 0o700);
    assert_eq!(drive(&mut os, |io| p("/d").mkdir(0o755, io)), Ok(()));
    assert_eq!(os.files["/d"].perm, 0o755);
    assert_eq!(os.log, vec![Syscall::Mkdir(p("/d"), 0o755), Syscall::Chmod(p("/d"), 0o755)]);
}

#[test]
fn mkdir_surfaces_a_missing_parent() {
    let mut os = Os::new();
    assert_eq!(
        drive(&mut os, |io| p("/x/y").mkdir(0o755, io)),
        Err(os_err(ENOENT, "mkdir", Some("/x/y"), None))
    );
}

#[test]
fn mkdir_surfaces_a_failed_repair() {
    let (calls, result) = script(vec![fail(EEXIST), fail(EPERM)], |io| p("/d").mkdir(0o755, io));
    assert_eq!(calls.len(), 2);
    assert_eq!(result, Some(Err(os_err(EPERM, "chmod", Some("/d"), None))));
}

#[test]
fn copy_to_reproduces_a_tree() {
    let mut os = Os::new();
    os.put("/src", Node::Dir, 0o750);
    os.put("/src/f", Node::File(b"payload".to_vec()), 0o640);
    os.put("/src/l", Node::Link("f".to_string()), 0o777);
    {
        let f = os.files.get_mut("/src/f").unwrap();
        f.uid = 1000;
        f.gid = 2000;
        f.label = "u:object_r:rootfs:s0".to_string();
    }
    {
        let d = os.files.get_mut("/src").unwrap();
        d.uid = 7;
        d.label = "u:object_r:tmpfs:s0".to_string();
    }
    os.files.get_mut("/src/l").unwrap().gid = 9;
    assert_eq!(drive(&mut os, |io| p("/src").copy_to(&p("/dst"), io)), Ok(()));
    assert_eq!(os.children("/dst"), os.children("/src"));
    for name in ["", "/f", "/l"] {
        let a = &os.files[&format!("/src{}", name)];
        let b = &os.files[&format!("/dst{}", name)];
        assert_eq!(a.node, b.node, "{}", name);
        assert_eq!((a.perm, a.uid, a.gid, &a.label), (b.perm, b.uid, b.gid, &b.label), "{}", name);
    }
    assert_eq!(os.files["/dst/f"].node, Node::File(b"payload".to_vec()));
    assert_eq!(os.files["/dst/l"].node, Node::Link("f".to_string()));
    assert!(os.fds.is_empty());
}

#[test]
fn copy_to_sets_attributes_after_the_content() {
    let mut os = Os::new();
    os.put("/f", Node::File(b"x".to_vec()), 0o600);
    os.files.get_mut("/f").unwrap().label = "lbl".to_string();
    assert_eq!(drive(&mut os, |io| p("/f").copy_to(&p("/g"), io)), Ok(()));
    assert_eq!(
        os.log,
        vec![
            Syscall::Lstat(p("/f")),
            Syscall::LgetLabel(p("/f")),
            Syscall::Remove(p("/g")),
            Syscall::Open(p("/f"), O_RDONLY | O_CLOEXEC, 0),
            Syscall::Open(p("/g"), O_WRONLY | O_CREAT | O_TRUNC | O_CLOEXEC, 0o777),
            Syscall::CopyData(3, 4),
            Syscall::Close(4),
            Syscall::Close(3),
            Syscall::Chmod(p("/g"), 0o600),
            Syscall::Lchown(p("/g"), 0, 0),
            Syscall::LsetLabel { path: p("/g"), label: p("lbl") },
        ]
    );
}

#[test]
fn copy_to_replaces_what_is_there() {
    let mut os = Os::new();
    os.put("/f", Node::File(b"new".to_vec()), 0o644);
    os.put("/g", Node::File(b"old and longer".to_vec()), 0o600);
    assert_eq!(drive(&mut os, |io| p("/f").copy_to(&p("/g"), io)), Ok(()));
    assert_eq!(os.files["/g"].node, Node::File(b"new".to_vec()));
    assert_eq!(os.files["/g"].perm, 0o644);
}

#[test]
fn copy_to_of_a_link_recreates_the_target() {
    let mut os = Os::new();
    os.put("/l", Node::Link("/etc/target".to_string()), 0o777);
    os.files.get_mut("/l").unwrap().uid = 5;
    assert_eq!(drive(&mut os, |io| p("/l").copy_to(&p("/m"), io)), Ok(()));
    assert_eq!(os.files["/m"].node, Node::Link("/etc/target".to_string()));
    assert_eq!(os.files["/m"].uid, 5);
    assert!(!os.log.iter().any(|c| matches!(c, Syscall::Chmod(_, _))));
}

#[test]
fn copy_to_of_a_missing_source_fails_at_once() {
    let mut os = Os::new();
    assert_eq!(
        drive(&mut os, |io| p("/none").copy_to(&p("/g"), io)),
        Err(os_err(ENOENT, "lstat", Some("/none"), None))
    );
    assert_eq!(os.log.len(), 1);
}

#[test]
fn copy_to_closes_the_source_when_the_destination_cannot_be_opened() {
    let replies = vec![
        Reply::Stat(stat(S_IFREG, 0o644, 1)),
        fail(ENODATA),
        fail(ENOENT),
        Reply::Ret { ret: 5, errno: 0 },
        fail(EPERM),
        ok(),
    ];
    let (calls, result) = script(replies, |io| p("/f").copy_to(&p("/g"), io));
    assert_eq!(calls.last(), Some(&Syscall::Close(5)));
    assert_eq!(result, Some(Err(os_err(EPERM, "open", Some("/g"), None))));
}

#[test]
fn copy_to_of_nested_directories() {
    let mut os = Os::new();
    os.put("/s", Node::Dir, 0o755);
    os.put("/s/d", Node::Dir, 0o700);
    os.put("/s/d/e", Node::Dir, 0o711);
    os.put("/s/d/e/f", Node::File(b"deep".to_vec()), 0o444);
    os.put("/s/z", Node::File(b"".to_vec()), 0o600);
    assert_eq!(drive(&mut os, |io| p("/s").copy_to(&p("/t"), io)), Ok(()));
    for name in ["", "/d", "/d/e", "/d/e/f", "/z"] {
        let a = &os.files[&format!("/s{}", name)];
        let b = &os.files[&format!("/t{}", name)];
        assert_eq!((&a.node, a.perm), (&b.node, b.perm), "{}", name);
    }
}

#[test]
fn move_to_renames_where_nothing_is_in_the_way() {
    let mut os = Os::new();
    os.put("/a", Node::File(b"1".to_vec()), 0o644);
    assert_eq!(drive(&mut os, |io| p("/a").move_to(&p("/b"), io)), Ok(()));
    assert!(!os.files.contains_key("/a"));
    assert_eq!(os.files["/b"].node, Node::File(b"1".to_vec()));
    assert_eq!(os.log, vec![Syscall::Lstat(p("/b")), Syscall::Rename(p("/a"), p("/b"))]);
}

#[test]
fn move_to_removes_a_file_in_the_way() {
    let mut os = Os::new();
    os.put("/a", Node::File(b"1".to_vec()), 0o644);
    os.put("/b", Node::File(b"2".to_vec()), 0o600);
    assert_eq!(drive(&mut os, |io| p("/a").move_to(&p("/b"), io)), Ok(()));
    assert_eq!(os.files["/b"].node, Node::File(b"1".to_vec()));
    assert_eq!(
        os.log,
        vec![
            Syscall::Lstat(p("/b")),
            Syscall::Lstat(p("/b")),
            Syscall::LgetLabel(p("/b")),
            Syscall::Remove(p("/b")),
            Syscall::Rename(p("/a"), p("/b")),
        ]
    );
}

#[test]
fn move_to_moves_the_entries_into_a_directory() {
    let mut os = Os::new();
    os.put("/a", Node::Dir, 0o755);
    os.put("/a/x", Node::File(b"x".to_vec()), 0o644);
    os.put("/a/sub", Node::Dir, 0o755);
    os.put("/a/sub/y", Node::File(b"y".to_vec()), 0o644);
    os.put("/b", Node::Dir, 0o700);
    os.put("/b/sub", Node::Dir, 0o700);
    os.put("/b/sub/keep", Node::File(b"k".to_vec()), 0o644);
    assert_eq!(drive(&mut os, |io| p("/a").move_to(&p("/b"), io)), Ok(()));
    assert_eq!(os.files["/b/x"].node, Node::File(b"x".to_vec()));
    assert_eq!(os.files["/b/sub/y"].node, Node::File(b"y".to_vec()));
    assert_eq!(os.files["/b/sub/keep"].node, Node::File(b"k".to_vec()));
    assert_eq!(os.files["/b"].perm, 0o700);
    assert!(!os.files.contains_key("/a/x"));
    assert!(!os.log.contains(&Syscall::Rename(p("/a"), p("/b"))));
}

#[test]
fn move_to_surfaces_a_failed_removal() {
    let replies = vec![Reply::Stat(stat(S_IFREG, 0o644, 1)), Reply::Stat(stat(S_IFREG, 0o644, 1)), fail(ENODATA), fail(EPERM)];
    let (calls, result) = script(replies, |io| p("/a").move_to(&p("/b"), io));
    assert_eq!(calls.len(), 4);
    assert_eq!(result, Some(Err(os_err(EPERM, "remove", Some("/b"), None))));
}

#[test]
fn link_to_links_a_file() {
    let mut os = Os::new();
    os.put("/a", Node::File(b"1".to_vec()), 0o644);
    assert_eq!(drive(&mut os, |io| p("/a").link_to(&p("/b"), io)), Ok(()));
    assert_eq!(os.files["/b"].ino, os.files["/a"].ino);
    assert_eq!(os.log.last(), Some(&Syscall::Link(p("/a"), p("/b"))));
}

#[test]
fn link_to_recreates_directories_with_their_attributes() {
    let mut os = Os::new();
    os.put("/a", Node::Dir, 0o750);
    os.files.get_mut("/a").unwrap().uid = 3;
    os.put("/a/f", Node::File(b"1".to_vec()), 0o644);
    os.put("/a/d", Node::Dir, 0o700);
    os.put("/a/d/g", Node::File(b"2".to_vec()), 0o600);
    assert_eq!(drive(&mut os, |io| p("/a").link_to(&p("/b"), io)), Ok(()));
    assert_eq!(os.files["/b"].node, Node::Dir);
    assert_ne!(os.files["/b"].ino, os.files["/a"].ino);
    assert_eq!((os.files["/b"].perm, os.files["/b"].uid), (0o750, 3));
    assert_eq!(os.files["/b/d"].perm, 0o700);
    assert_eq!(os.files["/b/f"].ino, os.files["/a/f"].ino);
    assert_eq!(os.files["/b/d/g"].ino, os.files["/a/d/g"].ino);
}

#[test]
fn link_to_surfaces_a_failure() {
    let mut os = Os::new();
    os.put("/a", Node::File(b"1".to_vec()), 0o644);
    os.put("/b", Node::File(b"2".to_vec()), 0o644);
    assert_eq!(
        drive(&mut os, |io| p("/a").link_to(&p("/b"), io)),
        Err(os_err(EEXIST, "link", Some("/a"), Some("/b")))
    );
}

#[test]
fn remove_all_empties_depth_first() {
    let mut os = Os::new();
    os.put("/t", Node::Dir, 0o755);
    os.put("/t/a", Node::File(b"1".to_vec()), 0o644);
    os.put("/t/d", Node::Dir, 0o755);
    os.put("/t/d/b", Node::Link("x".to_string()), 0o777);
    os.put("/keep", Node::File(b"k".to_vec()), 0o644);
    assert_eq!(drive(&mut os, |io| p("/t").remove_all(io)), Ok(()));
    assert_eq!(os.files.keys().cloned().collect::<Vec<_>>(), vec!["/".to_string(), "/keep".to_string()]);
    let removes: Vec<&Call> = os.log.iter().filter(|c| matches!(c, Syscall::Remove(_))).collect();
    assert_eq!(
        removes,
        vec![
            &Syscall::Remove(p("/t/a")),
            &Syscall::Remove(p("/t/d/b")),
            &Syscall::Remove(p("/t/d")),
            &Syscall::Remove(p("/t")),
        ]
    );
}

#[test]
fn remove_all_of_a_file_removes_it() {
    let mut os = Os::new();
    os.put("/f", Node::File(b"1".to_vec()), 0o644);
    assert_eq!(drive(&mut os, |io| p("/f").remove_all(io)), Ok(()));
    assert!(!os.files.contains_key("/f"));
}

#[test]
fn remove_all_stops_at_the_first_failure() {
    let replies = vec![
        Reply::Stat(stat(S_IFDIR, 0o755, 1)),
        fail(ENODATA),
        Reply::Names(vec![p("."), p("a"), p(".."), p("b")]),
        Reply::Stat(stat(S_IFREG, 0o644, 2)),
        fail(ENODATA),
        fail(EPERM),
    ];
    let (calls, result) = script(replies, |io| p("/t").remove_all(io));
    assert_eq!(calls.last(), Some(&Syscall::Remove(p("/t/a"))));
    assert_eq!(result, Some(Err(os_err(EPERM, "remove", Some("/t/a"), None))));
}

#[test]
fn directory_walkers_skip_dot_entries() {
    assert!(is_dot_name(&p(".")));
    assert!(is_dot_name(&p("..")));
    assert!(!is_dot_name(&p("...")));
    assert!(!is_dot_name(&p("")));
    assert!(!is_dot_name(&p(".a")));
    assert_eq!(child(&p("/a"), &p("b")), p("/a/b"));
    assert_eq!(child(&p("/"), &p("b")), p("/b"));
    assert_eq!(child(&p(""), &p("b")), p("b"));
    assert_eq!(child(&p("/a/"), &p("b")), p("/a/b"));
    let names = vec![p("."), p(".."), p("x")];
    let dir = Directory { path: p("/d"), names: &names };
    let (calls, _) = script(vec![], |io| dir.remove_all(io));
    assert_eq!(calls, vec![Syscall::Lstat(p("/d/x"))]);
    let (calls, _) = script(vec![], |io| dir.copy_into(&p("/e"), io));
    assert_eq!(calls, vec![Syscall::Lstat(p("/d/x"))]);
    let (calls, _) = script(vec![], |io| dir.move_into(&p("/e"), io));
    assert_eq!(calls, vec![Syscall::Lstat(p("/e/x"))]);
    let (calls, _) = script(vec![], |io| dir.link_into(&p("/e"), io));
    assert_eq!(calls, vec![Syscall::Lstat(p("/d/x"))]);
}

#[test]
fn directory_open_reads_the_names() {
    let seen = vec![Reply::Names(vec![p("a")])];
    let mut io = Replay::new(&seen);
    match Directory::open(&p("/d"), &mut io) {
        Step::Done(Ok(dir)) => {
            assert_eq!(dir.path, p("/d"));
            assert_eq!(dir.names, &vec![p("a")]);
        }
        _ => panic!("the directory was not read"),
    }
    let (calls, result) = script(vec![fail(ENOTDIR)], |io| match Directory::open(&p("/d"), io) {
        Step::Done(r) => Step::Done(r.map(|_| ())),
        Step::Call(c) => Step::Call(c),
    });
    assert_eq!(calls, vec![Syscall::ReadDir(p("/d"))]);
    assert_eq!(result, Some(Err(os_err(ENOTDIR, "opendir", Some("/d"), None))));
}

#[test]
fn exists_probes_without_following() {
    let mut os = Os::new();
    os.put("/l", Node::Link("/nowhere".to_string()), 0o777);
    assert_eq!(drive(&mut os, |io| p("/l").path_exists(io)), Ok(true));
    assert_eq!(drive(&mut os, |io| p("/l").follow_link().path_exists(io)), Ok(false));
    assert_eq!(drive(&mut os, |io| p("/none").path_exists(io)), Ok(false));
    assert_eq!(
        os.log,
        vec![Syscall::Lstat(p("/l")), Syscall::Stat(p("/l")), Syscall::Lstat(p("/none"))]
    );
}

#[test]
fn get_attr_takes_stat_and_label() {
    let mut os = Os::new();
    os.put("/f", Node::File(b"12345".to_vec()), 0o640);
    os.files.get_mut("/f").unwrap().label = "u:r:init:s0".to_string();
    os.put("/l", Node::Link("/f".to_string()), 0o777);
    let attr = drive(&mut os, |io| p("/f").get_attr(io)).unwrap();
    assert_eq!(attr.st.st_mode, S_IFREG | 0o640);
    assert_eq!(attr.st.st_size, 5);
    assert_eq!(attr.con, p("u:r:init:s0"));
    let link = drive(&mut os, |io| p("/l").get_attr(io)).unwrap();
    assert!(link.is_symlink());
    assert_eq!(link.con, p(""));
    let followed = drive(&mut os, |io| p("/l").follow_link().get_attr(io)).unwrap();
    assert!(followed.is_file());
    assert_eq!(followed.con, p("u:r:init:s0"));
}

#[test]
fn get_secontext_tells_absence_from_failure() {
    let (_, r) = script(vec![fail(ENODATA)], |io| p("/f").get_secontext(io));
    assert_eq!(r, Some(Ok(p(""))));
    let (_, r) = script(vec![Reply::Text(p("lbl"))], |io| p("/f").get_secontext(io));
    assert_eq!(r, Some(Ok(p("lbl"))));
    let (calls, r) = script(vec![fail(EPERM)], |io| p("/f").get_secontext(io));
    assert_eq!(calls, vec![Syscall::LgetLabel(p("/f"))]);
    assert_eq!(r, Some(Err(os_err(EPERM, "lgetxattr", Some("/f"), None))));
    let (_, r) = script(vec![Reply::Size(3)], |io| p("/f").get_secontext(io));
    assert_eq!(r, Some(Err(os_err(EPROTO, "lgetxattr", Some("/f"), None))));
    let (_, r) = script(vec![Reply::Ret { ret: 0, errno: ENODATA }], |io| fd_get_secontext(4, io));
    assert_eq!(r, Some(Ok(p(""))));
    let (calls, r) = script(vec![fail(EBADF)], |io| fd_get_secontext(4, io));
    assert_eq!(calls, vec![Syscall::FgetLabel(4)]);
    assert_eq!(r, Some(Err(os_err(EBADF, "fgetxattr", None, None))));
}

#[test]
fn set_secontext_names_both_texts() {
    let (calls, r) = script(vec![fail(EPERM)], |io| p("/f").set_secontext(&p("lbl"), io));
    assert_eq!(calls, vec![Syscall::LsetLabel { path: p("/f"), label: p("lbl") }]);
    assert_eq!(r, Some(Err(os_err(EPERM, "lsetxattr", Some("/f"), Some("lbl")))));
    let (calls, r) = script(vec![fail(EPERM)], |io| fd_set_secontext(3, &p("lbl"), io));
    assert_eq!(calls, vec![Syscall::FsetLabel { fd: 3, label: p("lbl") }]);
    assert_eq!(r, Some(Err(os_err(EPERM, "fsetxattr", Some("lbl"), None))));
}

fn attr(kind: u32, perm: u32, con: &str) -> FileAttr<Utf8CStr> {
    let mut st = stat(kind, perm, 1);
    st.st_uid = 10;
    st.st_gid = 20;
    FileAttr { st, con: p(con) }
}

#[test]
fn set_attr_replays_mode_owner_and_label() {
    let a = attr(S_IFREG, 0o4755, "lbl");
    let (calls, r) = script(vec![ok(), ok(), ok()], |io| p("/f").set_attr(&a, io));
    assert_eq!(
        calls,
        vec![
            Syscall::Chmod(p("/f"), 0o755),
            Syscall::Lchown(p("/f"), 10, 20),
            Syscall::LsetLabel { path: p("/f"), label: p("lbl") },
        ]
    );
    assert_eq!(r, Some(Ok(())));
}

#[test]
fn set_attr_writes_no_empty_label() {
    let a = attr(S_IFDIR, 0o700, "");
    let (calls, r) = script(vec![ok(), ok()], |io| p("/d").set_attr(&a, io));
    assert_eq!(calls, vec![Syscall::Chmod(p("/d"), 0o700), Syscall::Lchown(p("/d"), 10, 20)]);
    assert_eq!(r, Some(Ok(())));
}

#[test]
fn set_attr_never_changes_the_mode_of_a_link() {
    let a = attr(S_IFLNK, 0o777, "lbl");
    let (calls, r) = script(vec![ok(), ok()], |io| p("/l").set_attr(&a, io));
    assert_eq!(
        calls,
        vec![Syscall::Lchown(p("/l"), 10, 20), Syscall::LsetLabel { path: p("/l"), label: p("lbl") }]
    );
    assert_eq!(r, Some(Ok(())));
}

#[test]
fn set_attr_passes_over_a_failed_chmod_on_what_became_a_link() {
    let a = attr(S_IFREG, 0o644, "");
    let replies = vec![fail(EPERM), Reply::Stat(stat(S_IFLNK, 0o777, 1)), fail(ENODATA), ok()];
    let (calls, r) = script(replies, |io| p("/f").set_attr(&a, io));
    assert_eq!(
        calls,
        vec![
            Syscall::Chmod(p("/f"), 0o644),
            Syscall::Lstat(p("/f")),
            Syscall::LgetLabel(p("/f")),
            Syscall::Lchown(p("/f"), 10, 20),
        ]
    );
    assert_eq!(r, Some(Ok(())));
}

#[test]
fn set_attr_surfaces_a_failed_chmod_on_anything_else() {
    let a = attr(S_IFREG, 0o644, "");
    let replies = vec![fail(EPERM), Reply::Stat(stat(S_IFREG, 0o600, 1)), fail(ENODATA)];
    let (calls, r) = script(replies, |io| p("/f").set_attr(&a, io));
    assert_eq!(calls.len(), 3);
    assert_eq!(r, Some(Err(os_err(EPERM, "chmod", Some("/f"), None))));
    let replies = vec![fail(EPERM), fail(ENOENT)];
    let (_, r) = script(replies, |io| p("/f").set_attr(&a, io));
    assert_eq!(r, Some(Err(os_err(ENOENT, "lstat", Some("/f"), None))));
}

#[test]
fn set_attr_surfaces_a_failed_chown() {
    let a = attr(S_IFREG, 0o644, "lbl");
    let (calls, r) = script(vec![ok(), fail(EPERM)], |io| p("/f").set_attr(&a, io));
    assert_eq!(calls.len(), 2);
    assert_eq!(r, Some(Err(os_err(EPERM, "lchown", Some("/f"), None))));
}

#[test]
fn fd_attributes() {
    let mut os = Os::new();
    os.put("/f", Node::File(b"abc".to_vec()), 0o640);
    os.files.get_mut("/f").unwrap().label = "one".to_string();
    os.put("/g", Node::File(Vec::new()), 0o600);
    let a = drive(&mut os, |io| open_fd(&p("/f"), O_RDONLY, 0, io)).unwrap();
    let b = drive(&mut os, |io| open_fd(&p("/g"), O_WRONLY, 0, io)).unwrap();
    let got = drive(&mut os, |io| fd_get_attr(a, io)).unwrap();
    assert_eq!((got.st.st_mode, got.st.st_size, got.con.as_str()), (S_IFREG | 0o640, 3, "one"));
    os.log.clear();
    assert_eq!(drive(&mut os, |io| fd_set_attr(b, &attr(S_IFREG, 0o751, "two"), io)), Ok(()));
    assert_eq!(
        os.log,
        vec![
            Syscall::Fchmod(b, 0o751),
            Syscall::Fchown(b, 10, 20),
            Syscall::FsetLabel { fd: b, label: p("two") },
        ]
    );
    os.files.get_mut("/f").unwrap().uid = 77;
    assert_eq!(drive(&mut os, |io| fclone_attr(a, b, io)), Ok(()));
    let g = &os.files["/g"];
    assert_eq!((g.perm, g.uid, g.gid, g.label.as_str()), (0o640, 77, 0, "one"));
    let (calls, r) = script(vec![fail(EBADF)], |io| fd_get_attr(9, io));
    assert_eq!(calls, vec![Syscall::Fstat(9)]);
    assert_eq!(r, Some(Err(os_err(EBADF, "fstat", None, None))));
    let (_, r) = script(vec![ok(), fail(EPERM)], |io| fd_set_attr(9, &attr(S_IFREG, 0o644, ""), io));
    assert_eq!(r, Some(Err(os_err(EPERM, "fchown", None, None))));
    let (_, r) = script(vec![fail(EPERM)], |io| fd_set_attr(9, &attr(S_IFREG, 0o644, ""), io));
    assert_eq!(r, Some(Err(os_err(EPERM, "fchmod", None, None))));
}

#[test]
fn clone_attr_names_the_file_that_failed() {
    let mut os = Os::new();
    os.put("/a", Node::File(Vec::new()), 0o640);
    os.files.get_mut("/a").unwrap().label = "lbl".to_string();
    os.put("/b", Node::File(Vec::new()), 0o600);
    assert_eq!(drive(&mut os, |io| clone_attr(&p("/a"), &p("/b"), io)), Ok(()));
    assert_eq!((os.files["/b"].perm, os.files["/b"].label.as_str()), (0o640, "lbl"));
    assert_eq!(
        drive(&mut os, |io| clone_attr(&p("/none"), &p("/b"), io)),
        Err(os_err(ENOENT, "lstat", Some("/none"), None))
    );
    let replies = vec![Reply::Stat(stat(S_IFREG, 0o644, 1)), Reply::Text(p("lbl")), ok(), ok(), fail(EPERM)];
    let (_, r) = script(replies, |io| clone_attr(&p("/a"), &p("/b"), io));
    assert_eq!(r, Some(Err(os_err(EPERM, "lsetxattr", Some("/b"), None))));
    let replies = vec![Reply::Stat(stat(S_IFREG, 0o644, 1)), Reply::Text(p("lbl")), ok(), ok(), fail(EPERM)];
    let (_, r) = script(replies, |io| fclone_attr(3, 4, io));
    assert_eq!(r, Some(Err(os_err(EPERM, "fsetxattr", None, None))));
}

#[test]
fn file_kinds() {
    let kinds = [S_IFDIR, S_IFREG, S_IFLNK, S_IFBLK, S_IFCHR, S_IFIFO, S_IFSOCK];
    for k in kinds {
        let a = attr(k, 0o7777, "");
        assert_eq!(a.is_dir(), k == S_IFDIR);
        assert_eq!(a.is_file(), k == S_IFREG);
        assert_eq!(a.is_symlink(), k == S_IFLNK);
        assert_eq!(a.is_block_device(), k == S_IFBLK);
        assert_eq!(a.is_char_device(), k == S_IFCHR);
        assert_eq!(a.is_fifo(), k == S_IFIFO);
        assert_eq!(a.is_socket(), k == S_IFSOCK);
    }
    let mut w = attr(S_IFCHR, 0, "");
    assert!(w.is_whiteout());
    w.st.st_rdev = 259;
    assert!(!w.is_whiteout());
    assert!(!attr(S_IFBLK, 0, "").is_whiteout());
}

#[test]
fn open_and_create() {
    let (calls, r) = script(vec![Reply::Ret { ret: 7, errno: 0 }], |io| p("/f").open(O_RDWR, io));
    assert_eq!(calls, vec![Syscall::Open(p("/f"), O_RDWR, 0)]);
    assert_eq!(r, Some(Ok(7)));
    let (calls, r) = script(vec![fail(ENOENT)], |io| p("/f").create(O_WRONLY, 0o600, io));
    assert_eq!(calls, vec![Syscall::Open(p("/f"), O_WRONLY | O_CREAT, 0o600)]);
    assert_eq!(r, Some(Err(os_err(ENOENT, "open", Some("/f"), None))));
    let (_, r) = script(vec![Reply::Ret { ret: 1 << 40, errno: 0 }], |io| p("/f").open(0, io));
    assert_eq!(r, Some(Err(os_err(EPROTO, "open", Some("/f"), None))));
}

#[test]
fn single_calls() {
    let (calls, r) = script(vec![fail(EPERM)], |io| p("/a").rename_to(&p("/b"), io));
    assert_eq!(calls, vec![Syscall::Rename(p("/a"), p("/b"))]);
    assert_eq!(r, Some(Err(os_err(EPERM, "rename", Some("/a"), Some("/b")))));
    let (calls, r) = script(vec![fail(EPERM)], |io| p("/a").remove(io));
    assert_eq!(calls, vec![Syscall::Remove(p("/a"))]);
    assert_eq!(r, Some(Err(os_err(EPERM, "remove", Some("/a"), None))));
    let (calls, r) = script(vec![fail(EEXIST)], |io| p("/l").create_symlink_to(&p("/t"), io));
    assert_eq!(calls, vec![Syscall::Symlink { target: p("/t"), link: p("/l") }]);
    assert_eq!(r, Some(Err(os_err(EEXIST, "symlink", Some("/t"), Some("/l")))));
    let (calls, r) = script(vec![ok()], |io| p("/p").mkfifo(0o600, io));
    assert_eq!(calls, vec![Syscall::Mkfifo(p("/p"), 0o600)]);
    assert_eq!(r, Some(Ok(())));
    let (_, r) = script(vec![fail(EEXIST)], |io| p("/p").mkfifo(0o600, io));
    assert_eq!(r, Some(Err(os_err(EEXIST, "mkfifo", Some("/p"), None))));
    let (calls, r) = script(vec![Reply::Text(p("target"))], |io| p("/l").read_link(io));
    assert_eq!(calls, vec![Syscall::Readlink(p("/l"))]);
    assert_eq!(r, Some(Ok(p("target"))));
    let (_, r) = script(vec![fail(EINVAL)], |io| p("/l").read_link(io));
    assert_eq!(r, Some(Err(os_err(EINVAL, "readlink", Some("/l"), None))));
    let (_, r) = script(vec![ok()], |io| p("/l").read_link(io));
    assert_eq!(r, Some(Err(os_err(EPROTO, "readlink", Some("/l"), None))));
}

#[test]
fn mounts() {
    let (calls, r) = script(vec![ok()], |io| p("/a").bind_mount_to(&p("/b"), false, io));
    assert_eq!(
        calls,
        vec![Syscall::Mount { source: p("/a"), target: p("/b"), fstype: None, flags: MS_BIND, data: None }]
    );
    assert_eq!(r, Some(Ok(())));
    let (calls, r) = script(vec![fail(EPERM)], |io| p("/a").bind_mount_to(&p("/b"), true, io));
    assert_eq!(
        calls,
        vec![Syscall::Mount {
            source: p("/a"),
            target: p("/b"),
            fstype: None,
            flags: MS_BIND | MS_REC,
            data: None
        }]
    );
    assert_eq!(MS_BIND | MS_REC, 20480);
    assert_eq!(r, Some(Err(os_err(EPERM, "bind_mount", Some("/a"), Some("/b")))));
    let (calls, r) = script(vec![fail(EINVAL)], |io| p("/a").unmount(io));
    assert_eq!(calls, vec![Syscall::Umount2(p("/a"), MNT_DETACH)]);
    assert_eq!(r, Some(Err(os_err(EINVAL, "unmount", Some("/a"), None))));
}

#[test]
fn fd_path_reads_the_link_of_the_descriptor() {
    let (calls, r) = script(vec![Reply::Text(p("/real"))], |io| fd_path(12, io));
    assert_eq!(calls, vec![Syscall::Readlink(p("/proc/self/fd/12"))]);
    assert_eq!(r, Some(Ok(p("/real"))));
    let (_, r) = script(vec![fail(ENOENT)], |io| fd_path(12, io));
    assert_eq!(r, Some(Err(os_err(ENOENT, "readlink", None, None))));
}

fn realpath_replies(opened: Reply, resolved: Reply) -> Vec<Reply> {
    vec![Reply::Ret { ret: 8, errno: 0 }, opened, Reply::Text(p("/real/path")), resolved, ok()]
}

#[test]
fn realpath_returns_the_canonical_path() {
    let st = stat(S_IFREG, 0o644, 42);
    let (calls, r) = script(realpath_replies(Reply::Stat(st), Reply::Stat(st)), |io| p("/l").realpath(io));
    assert_eq!(
        calls,
        vec![
            Syscall::Open(p("/l"), O_PATH | O_CLOEXEC, 0),
            Syscall::Fstat(8),
            Syscall::Readlink(p("/proc/self/fd/8")),
            Syscall::Stat(p("/real/path")),
            Syscall::Close(8),
        ]
    );
    assert_eq!(r, Some(Ok(p("/real/path"))));
}

#[test]
fn realpath_fails_when_the_path_was_changed_under_it() {
    let a = stat(S_IFREG, 0o644, 42);
    let mut b = a;
    b.st_ino = 43;
    let (calls, r) = script(realpath_replies(Reply::Stat(a), Reply::Stat(b)), |io| p("/l").realpath(io));
    assert_eq!(calls.last(), Some(&Syscall::Close(8)));
    assert_eq!(r, Some(Err(os_err(ENOENT, "realpath", Some("/l"), None))));
    let mut c = a;
    c.st_dev = 2;
    let (_, r) = script(realpath_replies(Reply::Stat(a), Reply::Stat(c)), |io| p("/l").realpath(io));
    assert_eq!(r, Some(Err(os_err(ENOENT, "realpath", Some("/l"), None))));
}

#[test]
fn realpath_skips_the_check_where_the_kernel_cannot_tell() {
    let b = stat(S_IFREG, 0o644, 43);
    let (_, r) = script(realpath_replies(fail(EBADF), Reply::Stat(b)), |io| p("/l").realpath(io));
    assert_eq!(r, Some(Ok(p("/real/path"))));
}

#[test]
fn realpath_closes_on_every_failure() {
    let (calls, r) = script(vec![fail(ENOENT)], |io| p("/l").realpath(io));
    assert_eq!(calls.len(), 1);
    assert_eq!(r, Some(Err(os_err(ENOENT, "open", Some("/l"), None))));
    let replies = vec![Reply::Ret { ret: 8, errno: 0 }, fail(EBADF), fail(EINVAL), ok()];
    let (calls, r) = script(replies, |io| p("/l").realpath(io));
    assert_eq!(calls.last(), Some(&Syscall::Close(8)));
    assert_eq!(r, Some(Err(os_err(EINVAL, "readlink", None, None))));
    let replies = vec![
        Reply::Ret { ret: 8, errno: 0 },
        Reply::Stat(stat(S_IFREG, 0, 1)),
        Reply::Text(p("/gone")),
        fail(ENOENT),
        ok(),
    ];
    let (calls, r) = script(replies, |io| p("/l").realpath(io));
    assert_eq!(calls.last(), Some(&Syscall::Close(8)));
    assert_eq!(r, Some(Err(os_err(ENOENT, "stat", Some("/l"), None))));
}

#[test]
fn check_realpath_compares_device_and_inode() {
    let a = stat(S_IFREG, 0o644, 42);
    let mut b = a;
    b.st_mode = S_IFDIR;
    b.st_size = 9;
    assert_eq!(check_realpath(&p("/l"), p("/r"), Ok(a), &b), Ok(p("/r")));
    b.st_ino = 1;
    assert_eq!(
        check_realpath(&p("/l"), p("/r"), Ok(a), &b),
        Err(os_err(ENOENT, "realpath", Some("/l"), None))
    );
    assert_eq!(check_realpath(&p("/l"), p("/r"), Err(EBADF), &b), Ok(p("/r")));
}

#[test]
fn mapping_a_regular_file_takes_its_size() {
    let mut st = stat(S_IFREG, 0o644, 1);
    st.st_size = 4096;
    let replies = vec![
        Reply::Ret { ret: 5, errno: 0 },
        Reply::Stat(st),
        fail(ENODATA),
        Reply::Ret { ret: 0x7f00_0000_1000, errno: 0 },
        ok(),
    ];
    let (calls, r) = script(replies, |io| MappedFile::open(&p("/init"), io));
    assert_eq!(
        calls,
        vec![
            Syscall::Openat(AT_FDCWD, p("/init"), O_RDONLY | O_CLOEXEC),
            Syscall::Fstat(5),
            Syscall::FgetLabel(5),
            Syscall::Mmap { fd: 5, len: 4096, prot: PROT_READ | PROT_WRITE, flags: MAP_PRIVATE },
            Syscall::Close(5),
        ]
    );
    assert_eq!(r, Some(Ok(MappedFile { addr: 0x7f00_0000_1000, len: 4096 })));
}

#[test]
fn mapping_a_block_device_asks_for_its_size() {
    let replies = vec![
        Reply::Ret { ret: 5, errno: 0 },
        Reply::Stat(stat(S_IFBLK, 0o600, 1)),
        fail(ENODATA),
        Reply::Size(1 << 20),
        Reply::Ret { ret: 0x1000, errno: 0 },
        ok(),
    ];
    let (calls, r) = script(replies, |io| MappedFile::open_rw(&p("/dev/block/boot"), io));
    assert_eq!(
        calls,
        vec![
            Syscall::Openat(AT_FDCWD, p("/dev/block/boot"), O_RDWR | O_CLOEXEC),
            Syscall::Fstat(5),
            Syscall::FgetLabel(5),
            Syscall::BlockSize(5),
            Syscall::Mmap { fd: 5, len: 1 << 20, prot: PROT_READ | PROT_WRITE, flags: MAP_SHARED },
            Syscall::Close(5),
        ]
    );
    assert_eq!(r, Some(Ok(MappedFile { addr: 0x1000, len: 1 << 20 })));
}

#[test]
fn mapping_failures_close_the_descriptor() {
    let (calls, r) = script(vec![fail(ENOENT)], |io| map_file(&p("/f"), false, io));
    assert_eq!(calls.len(), 1);
    assert_eq!(r, Some(Err(os_err(ENOENT, "openat", Some("/f"), None))));
    let (calls, r) = script(vec![Reply::Ret { ret: 5, errno: 0 }, fail(EBADF), ok()], |io| {
        map_file_at(9, &p("f"), true, io)
    });
    assert_eq!(calls[0], Syscall::Openat(9, p("f"), O_RDWR | O_CLOEXEC));
    assert_eq!(calls.last(), Some(&Syscall::Close(5)));
    assert_eq!(r, Some(Err(os_err(EBADF, "fstat", None, None))));
    let replies = vec![
        Reply::Ret { ret: 5, errno: 0 },
        Reply::Stat(stat(S_IFBLK, 0o600, 1)),
        fail(ENODATA),
        fail(EINVAL),
        ok(),
    ];
    let (calls, r) = script(replies, |io| MappedFile::openat(9, &p("f"), io));
    assert_eq!(calls.last(), Some(&Syscall::Close(5)));
    assert_eq!(r, Some(Err(os_err(EINVAL, "ioctl", Some("f"), None))));
    let replies = vec![
        Reply::Ret { ret: 5, errno: 0 },
        Reply::Stat(stat(S_IFREG, 0o600, 1)),
        fail(ENODATA),
        Reply::Ret { ret: -1, errno: 12 },
        ok(),
    ];
    let (calls, r) = script(replies, |io| MappedFile::openat_rw(9, &p("f"), io));
    assert_eq!(calls.last(), Some(&Syscall::Close(5)));
    assert_eq!(r, Some(Err(os_err(12, "mmap", Some("f"), None))));
}

#[test]
fn mapping_a_descriptor() {
    let (calls, r) = script(vec![Reply::Ret { ret: 0x2000, errno: 0 }], |io| map_fd(3, 10, true, io));
    assert_eq!(
        calls,
        vec![Syscall::Mmap { fd: 3, len: 10, prot: PROT_READ | PROT_WRITE, flags: MAP_SHARED }]
    );
    assert_eq!(r, Some(Ok(MappedFile { addr: 0x2000, len: 10 })));
    let (_, r) = script(vec![Reply::Ret { ret: -1, errno: 12 }], |io| MappedFile::create(3, 10, false, io));
    assert_eq!(r, Some(Err(os_err(12, "mmap", None, None))));
    let (calls, r) = script(vec![fail(EINVAL)], |io| MappedFile { addr: 0x2000, len: 10 }.unmap(io));
    assert_eq!(calls, vec![Syscall::Munmap { addr: 0x2000, len: 10 }]);
    assert_eq!(r, Some(Ok(())));
}

#[test]
fn an_operation_reads_only_its_own_replies() {
    let seen = vec![ok(), fail(EPERM), ok()];
    let (next, at) = step(&seen, |io| p("/d").mkdir(0o755, io));
    assert_eq!(next, Step::Done(Ok(())));
    assert_eq!(at, 1);
    let mut io = Replay::new(&seen);
    assert_eq!(p("/d").mkdir(0o755, &mut io), Step::Done(Ok(())));
    assert_eq!(p("/e").remove(&mut io), Step::Done(Err(os_err(EPERM, "remove", Some("/e"), None))));
    assert_eq!(p("/f").remove(&mut io), Step::Done(Ok(())));
    assert_eq!(p("/g").remove(&mut io), Step::Call(Syscall::Remove(p("/g"))));
    assert_eq!(io.at, 3);
    assert_eq!(p("/g").remove(&mut io), Step::Call(Syscall::Remove(p("/g"))));
}

#[test]
fn replies_are_read_by_what_they_carry() {
    assert_eq!(ok().get_status(), Ok(0));
    assert_eq!(Reply::Ret { ret: 5, errno: 9 }.get_status(), Ok(5));
    assert_eq!(fail(13).get_status(), Err(13));
    assert_eq!(Reply::Size(4).get_status(), Ok(0));
    assert_eq!(Reply::Size(4).get_size(), Ok(4));
    assert_eq!(ok().get_size(), Err(EPROTO));
    assert_eq!(fail(5).get_size(), Err(5));
    assert_eq!(fail(5).get_refusal(), 5);
    assert_eq!(ok().get_refusal(), EPROTO);
    assert_eq!(Reply::Stat(stat(S_IFREG, 0, 1)).get_stat(), Ok(stat(S_IFREG, 0, 1)));
    assert_eq!(ok().get_stat(), Err(EPROTO));
    assert_eq!(Reply::Text(p("t")).get_text(), Ok(p("t")));
    assert_eq!(fail(2).get_text(), Err(2));
    assert_eq!(Reply::Names(vec![p("a")]).get_names(), Ok(&vec![p("a")]));
    assert_eq!(fail(2).get_names(), Err(2));
    assert_eq!(Reply::Content("c".to_string()).get_content(), Ok("c"));
    assert_eq!(Reply::Text(p("c")).get_content(), Err(EPROTO));
    assert_eq!(Reply::Ret { ret: 3, errno: 0 }.get_fd(), Ok(3));
    assert_eq!(Reply::Ret { ret: i32::MAX as i64 + 1, errno: 0 }.get_fd(), Err(EPROTO));
    assert_eq!(fail(24).get_fd(), Err(24));
    assert_eq!(Reply::Ret { ret: 4096, errno: 0 }.get_addr(), Ok(4096));
    assert_eq!(Reply::Ret { ret: -1, errno: 12 }.get_addr(), Err(12));
    assert_eq!(Reply::Text(p("l")).get_label(), Ok(p("l")));
    assert_eq!(fail(ENODATA).get_label(), Ok(p("")));
    assert_eq!(fail(EPERM).get_label(), Err(EPERM));
    assert_eq!(Reply::Names(vec![]).get_label(), Err(EPROTO));
    assert_eq!(
        os_err(1, "x", Some("/a"), Some("/b")).set_args(Some(&p("/c")), None),
        os_err(1, "x", Some("/c"), None)
    );
}

#[test]
fn followed_attributes_name_their_calls() {
    let (calls, r) = script(vec![fail(ENOENT)], |io| p("/l").follow_link().get_attr(io));
    assert_eq!(calls, vec![Syscall::Stat(p("/l"))]);
    assert_eq!(r.map(|r| r.map(|_| ())), Some(Err(os_err(ENOENT, "stat", Some("/l"), None))));
    let replies = vec![Reply::Stat(stat(S_IFREG, 0o644, 1)), fail(EPERM)];
    let (calls, r) = script(replies, |io| p("/l").follow_link().get_attr(io));
    assert_eq!(calls, vec![Syscall::Stat(p("/l")), Syscall::GetLabel(p("/l"))]);
    assert_eq!(r.map(|r| r.map(|_| ())), Some(Err(os_err(EPERM, "getxattr", Some("/l"), None))));
}

#[test]
fn copy_to_surfaces_a_failed_copy_after_closing_both_files() {
    let replies = vec![
        Reply::Stat(stat(S_IFREG, 0o644, 1)),
        fail(ENODATA),
        ok(),
        Reply::Ret { ret: 5, errno: 0 },
        Reply::Ret { ret: 6, errno: 0 },
        fail(28),
        ok(),
        ok(),
    ];
    let (calls, r) = script(replies, |io| p("/f").copy_to(&p("/g"), io));
    assert_eq!(&calls[5..], &[Syscall::CopyData(5, 6), Syscall::Close(6), Syscall::Close(5)]);
    assert_eq!(r, Some(Err(os_err(28, "copy", Some("/f"), Some("/g")))));
}

#[test]
fn copy_to_of_a_device_node_places_nothing() {
    let replies = vec![
        Reply::Stat(stat(S_IFCHR, 0o600, 1)),
        fail(ENODATA),
        fail(ENOENT),
        fail(ENOENT),
        fail(ENOENT),
    ];
    let (calls, r) = script(replies, |io| p("/dev/x").copy_to(&p("/y"), io));
    assert_eq!(
        calls,
        vec![
            Syscall::Lstat(p("/dev/x")),
            Syscall::LgetLabel(p("/dev/x")),
            Syscall::Remove(p("/y")),
            Syscall::Chmod(p("/y"), 0o600),
            Syscall::Lstat(p("/y")),
        ]
    );
    assert_eq!(r, Some(Err(os_err(ENOENT, "lstat", Some("/y"), None))));
}

#[test]
fn copy_to_of_a_directory_surfaces_an_unreadable_source() {
    let replies = vec![Reply::Stat(stat(S_IFDIR, 0o755, 1)), fail(ENODATA), ok(), fail(13)];
    let (calls, r) = script(replies, |io| p("/s").copy_to(&p("/t"), io));
    assert_eq!(calls.last(), Some(&Syscall::ReadDir(p("/s"))));
    assert_eq!(r, Some(Err(os_err(13, "opendir", Some("/s"), None))));
}
