//! The front end's configuration, and how a database's server list is
//! assembled from direct URLs and mirror lists.
use crate::text::views;
use vstd::prelude::*;

verus! {

/// Default verbosity.
pub fn verbose() -> (r: i32)
    ensures
        r == 0,
{
    0
}

/// By default every destructive step is confirmed.
pub fn no_confirm() -> (r: bool)
    ensures
        !r,
{
    false
}

/// By default nothing is logged to syslog.
pub fn syslog() -> (r: bool)
    ensures
        !r,
{
    false
}

/// By default output is coloured.
pub fn color() -> (r: bool)
    ensures
        r,
{
    true
}

/// By default downloads time out.
pub fn download_timeout() -> (r: bool)
    ensures
        r,
{
    true
}

/// The architecture assumed where the configuration names none.
pub fn arch() -> (r: String)
    ensures
        r@ == "x86_64"@,
{
    String::from_str("x86_64")
}

/// Where the front end keeps its files.
#[derive(Clone, Debug, PartialEq, Eq)]
pub struct PathConfig {
    pub root: String,
    pub database: String,
    pub gpg: String,
    pub logfile: String,
    pub hook_dirs: Vec<String>,
    pub cache_dirs: Vec<String>,
}

impl Default for PathConfig {
    fn default() -> (r: Self)
        ensures
            r.root@ == "/"@,
            r.database@ == "/var/lib/pacman"@,
            r.gpg@ == "/etc/pacman.d/gnupg"@,
            r.logfile@ == "/var/log/rpac.log"@,
            views(r.hook_dirs@) == seq!["/etc/pacman.d/hooks"@],
            views(r.cache_dirs@) == seq!["/var/cache/pacman/pkg"@],
    {
        let hook_dirs = vec![String::from_str("/etc/pacman.d/hooks")];
        let cache_dirs = vec![String::from_str("/var/cache/pacman/pkg")];
        assert(views(hook_dirs@) =~= seq!["/etc/pacman.d/hooks"@]);
        assert(views(cache_dirs@) =~= seq!["/var/cache/pacman/pkg"@]);
        PathConfig {
            root: String::from_str("/"),
            database: String::from_str("/var/lib/pacman"),
            hook_dirs,
            gpg: String::from_str("/etc/pacman.d/gnupg"),
            logfile: String::from_str("/var/log/rpac.log"),
            cache_dirs,
        }
    }
}

/// A sync database of the configuration.
#[derive(Clone, Debug, PartialEq, Eq)]
pub struct Database {
    pub name: String,
    pub servers: Vec<String>,
    pub usage: u32,
    pub siglevel: u32,
    pub siglevel_mask: u32,
}

/// The whole configuration.
#[derive(Clone, Debug, PartialEq, Eq)]
pub struct Config {
    pub verbose: i32,
    pub no_confirm: bool,
    pub syslog: bool,
    pub color: bool,
    pub download_timeout: bool,
    pub arch: String,
    pub paths: PathConfig,
    pub databases: Vec<Database>,
}

/// Where a database's servers come from: a URL given directly, or the lines
/// of a mirror list file.
#[derive(Clone, Debug, PartialEq, Eq)]
pub enum ServerSource {
    Url(String),
    Mirrorlist(Vec<String>),
}

/// The key that a mirror list line starts with.
pub open spec fn server_key() -> Seq<char> {
    seq!['S', 'e', 'r', 'v', 'e', 'r', ' ', '=', ' ']
}

/// `s` without any number of leading server keys.
pub open spec fn strip_server_keys(s: Seq<char>) -> Seq<char>
    decreases s.len(),
{
    if s.len() >= 9 && s.subrange(0, 9) == server_key() {
        strip_server_keys(s.subrange(9, s.len() as int))
    } else {
        s
    }
}

/// The server that a mirror list line names: the line without its keys,
/// unless that is empty or a comment.
pub open spec fn line_server(line: Seq<char>) -> Option<Seq<char>> {
    let s = strip_server_keys(line);
    if s.len() == 0 || s[0] == '#' {
        None
    } else {
        Some(s)
    }
}

/// The servers that the lines of a mirror list name, in order.
pub open spec fn mirrorlist_servers(lines: Seq<Seq<char>>) -> Seq<Seq<char>>
    decreases lines.len(),
{
    if lines.len() == 0 {
        Seq::empty()
    } else {
        match line_server(lines.last()) {
            Some(s) => mirrorlist_servers(lines.drop_last()).push(s),
            None => mirrorlist_servers(lines.drop_last()),
        }
    }
}

/// The servers that a source names.
pub open spec fn source_servers(src: ServerSource) -> Seq<Seq<char>> {
    match src {
        ServerSource::Url(u) => seq![u@],
        ServerSource::Mirrorlist(lines) => mirrorlist_servers(views(lines@)),
    }
}

/// The servers that a list of sources names, in order.
pub open spec fn all_servers(srcs: Seq<ServerSource>) -> Seq<Seq<char>>
    decreases srcs.len(),
{
    if srcs.len() == 0 {
        Seq::empty()
    } else {
        all_servers(srcs.drop_last()) + source_servers(srcs.last())
    }
}

/// The server that a mirror list line names, if any.
pub fn parse_mirror_line(line: &str) -> (r: Option<String>)
    ensures
        match r {
            Some(s) => line_server(line@) == Some(s@),
            None => line_server(line@) is None,
        },
{
    proof {
        reveal_strlit("Server = ");
    }
    let key = String::from_str("Server = ");
    let len = line.unicode_len();
    let mut start: usize = 0;
    assert(line@.subrange(0, len as int) =~= line@);
    while len - start >= 9 && String::from_str(line.substring_char(start, start + 9)) == key
        invariant
            start <= len,
            len == line@.len(),
            key@ == server_key(),
            strip_server_keys(line@) == strip_server_keys(line@.subrange(start as int, len as int)),
        decreases len - start,
    {
        let ghost rest = line@.subrange(start as int, len as int);
        assert(rest.subrange(0, 9) =~= line@.subrange(start as int, start + 9));
        assert(rest.subrange(9, rest.len() as int) =~= line@.subrange(start + 9, len as int));
        start = start + 9;
    }
    proof {
        let rest = line@.subrange(start as int, len as int);
        if rest.len() >= 9 {
            assert(rest.subrange(0, 9) =~= line@.subrange(start as int, start + 9));
        }
    }
    if start == len || line.get_char(start) == '#' {
        None
    } else {
        Some(String::from_str(line.substring_char(start, len)))
    }
}

/// The servers that the lines of a mirror list name, in order.
pub fn parse_mirrorlist(lines: &Vec<String>) -> (r: Vec<String>)
    ensures
        views(r@) == mirrorlist_servers(views(lines@)),
{
    let mut r: Vec<String> = Vec::new();
    let mut i: usize = 0;
    while i < lines.len()
        invariant
            i <= lines@.len(),
            views(r@) == mirrorlist_servers(views(lines@.subrange(0, i as int))),
        decreases lines.len() - i,
    {
        let ghost next = views(lines@.subrange(0, i + 1));
        assert(next.drop_last() =~= views(lines@.subrange(0, i as int)));
        assert(next.last() == lines@[i as int]@);
        if let Some(s) = parse_mirror_line(lines[i].as_str()) {
            let ghost before = r@;
            r.push(s);
            assert(views(r@) =~= views(before).push(s@));
        }
        i += 1;
    }
    assert(lines@.subrange(0, lines@.len() as int) =~= lines@);
    r
}

/// `s` with every occurrence of `pat`, taken from left to right without
/// overlaps, replaced by `with`.
pub open spec fn replaced(s: Seq<char>, pat: Seq<char>, with: Seq<char>) -> Seq<char>
    decreases s.len(),
{
    if pat.len() == 0 || s.len() < pat.len() {
        s
    } else if s.subrange(0, pat.len() as int) == pat {
        with + replaced(s.subrange(pat.len() as int, s.len() as int), pat, with)
    } else {
        seq![s[0]] + replaced(s.subrange(1, s.len() as int), pat, with)
    }
}

/// The URL of a server entry for repository `repo` on architecture `arch`.
pub open spec fn server_url(server: Seq<char>, repo: Seq<char>, arch: Seq<char>) -> Seq<char> {
    replaced(replaced(server, "$repo"@, repo), "$arch"@, arch)
}

/// Replaces every occurrence of `pat` in `s` by `with`, left to right.
pub fn replace_all(s: &str, pat: &str, with: &str) -> (r: String)
    requires
        pat@.len() > 0,
    ensures
        r@ == replaced(s@, pat@, with@),
{
    let len = s.unicode_len();
    let plen = pat.unicode_len();
    let key = String::from_str(pat);
    let mut out = String::new();
    let mut i: usize = 0;
    assert(s@.subrange(0, len as int) =~= s@);
    while i < len
        invariant
            i <= len,
            len == s@.len(),
            plen == pat@.len(),
            plen > 0,
            key@ == pat@,
            out@ + replaced(s@.subrange(i as int, len as int), pat@, with@) == replaced(
                s@,
                pat@,
                with@,
            ),
        decreases len - i,
    {
        let ghost rest = s@.subrange(i as int, len as int);
        if len - i >= plen && String::from_str(s.substring_char(i, i + plen)) == key {
            assert(rest.subrange(0, plen as int) =~= s@.subrange(i as int, i + plen));
            assert(rest.subrange(plen as int, rest.len() as int) =~= s@.subrange(
                i + plen,
                len as int,
            ));
            out.append(with);
            i = i + plen;
            assert(out@ + replaced(s@.subrange(i as int, len as int), pat@, with@) =~= replaced(
                s@,
                pat@,
                with@,
            ));
        } else {
            proof {
                if rest.len() >= plen {
                    assert(rest.subrange(0, plen as int) =~= s@.subrange(i as int, i + plen));
                }
            }
            assert(rest.subrange(1, rest.len() as int) =~= s@.subrange(i + 1, len as int));
            assert(s@.subrange(i as int, i + 1) =~= seq![rest[0]]);
            out.append(s.substring_char(i, i + 1));
            i = i + 1;
            assert(out@ + replaced(s@.subrange(i as int, len as int), pat@, with@) =~= replaced(
                s@,
                pat@,
                with@,
            ));
        }
    }
    assert(s@.subrange(len as int, len as int) =~= Seq::<char>::empty());
    assert(out@ =~= replaced(s@, pat@, with@));
    out
}

impl Database {
    /// The URLs of the servers for architecture `arch`: each server with
    /// "$repo" replaced by the database's name, then "$arch" by `arch`.
    pub fn server_urls(&self, arch: &str) -> (r: Vec<String>)
        ensures
            r@.len() == self.servers@.len(),
            forall|i: int|
                0 <= i < r@.len() ==> #[trigger] r@[i]@ == server_url(
                    self.servers@[i]@,
                    self.name@,
                    arch@,
                ),
    {
        proof {
            reveal_strlit("$repo");
            reveal_strlit("$arch");
        }
        let mut r: Vec<String> = Vec::new();
        let mut i: usize = 0;
        while i < self.servers.len()
            invariant
                i <= self.servers@.len(),
                r@.len() == i,
                "$repo"@.len() == 5,
                "$arch"@.len() == 5,
                forall|j: int|
                    0 <= j < i ==> #[trigger] r@[j]@ == server_url(
                        self.servers@[j]@,
                        self.name@,
                        arch@,
                    ),
            decreases self.servers.len() - i,
        {
            let with_repo = replace_all(self.servers[i].as_str(), "$repo", self.name.as_str());
            r.push(replace_all(with_repo.as_str(), "$arch", arch));
            i += 1;
        }
        r
    }

    /// A database whose servers are those that `servers` names, in order:
    /// each URL as it is, and the servers of each mirror list.
    pub fn new(
        name: String,
        servers: Vec<ServerSource>,
        usage: u32,
        siglevel: u32,
        siglevel_mask: u32,
    ) -> (r: Database)
        ensures
            r.name == name,
            views(r.servers@) == all_servers(servers@),
            r.usage == usage,
            r.siglevel == siglevel,
            r.siglevel_mask == siglevel_mask,
    {
        let mut ret: Vec<String> = Vec::new();
        let mut i: usize = 0;
        while i < servers.len()
            invariant
                i <= servers@.len(),
                views(ret@) == all_servers(servers@.subrange(0, i as int)),
            decreases servers.len() - i,
        {
            let ghost prefix = servers@.subrange(0, i + 1);
            assert(prefix.drop_last() =~= servers@.subrange(0, i as int));
            let ghost before = ret@;
            match &servers[i] {
                ServerSource::Url(u) => {
                    ret.push(u.clone());
                    assert(views(ret@) =~= views(before) + seq![u@]);
                },
                ServerSource::Mirrorlist(lines) => {
                    let found = parse_mirrorlist(lines);
                    let mut j: usize = 0;
                    while j < found.len()
                        invariant
                            j <= found@.len(),
                            views(ret@) == views(before) + views(found@.subrange(0, j as int)),
                        decreases found.len() - j,
                    {
                        let ghost mid = ret@;
                        ret.push(found[j].clone());
                        assert(views(ret@) =~= views(mid).push(found@[j as int]@));
                        assert(views(found@.subrange(0, j + 1)) =~= views(
                            found@.subrange(0, j as int),
                        ).push(found@[j as int]@));
                        j += 1;
                        assert(views(ret@) =~= views(before) + views(found@.subrange(0, j as int)));
                    }
                    assert(found@.subrange(0, found@.len() as int) =~= found@);
                },
            }
            i += 1;
        }
        assert(servers@.subrange(0, servers@.len() as int) =~= servers@);
        Database { name, servers: ret, usage, siglevel, siglevel_mask }
    }
}

} // verus!
