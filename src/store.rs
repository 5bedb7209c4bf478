//! The configuration directory as values: the active configuration file,
//! the profile snapshots beside it, and the file operations that keep the
//! directory in step with the model.
use vstd::prelude::*;

verus! {

/// Name of the configuration file that the application reads.
pub const CONFIG_FILE: &'static str = "BambuNetworkEngine.conf";

/// Stands between the configuration file's name and a profile's name.
pub const SEPARATOR: &'static str = "_";

/// What every snapshot's file name starts with.
pub open spec fn snapshot_prefix() -> Seq<char> {
    CONFIG_FILE@ + SEPARATOR@
}

/// The file name of the snapshot of `profile`.
pub open spec fn snapshot_name(profile: Seq<char>) -> Seq<char> {
    snapshot_prefix() + profile
}

/// The profile whose snapshot a file of this name is, if it is one.
pub open spec fn profile_of(file_name: Seq<char>) -> Option<Seq<char>> {
    if snapshot_prefix().is_prefix_of(file_name) {
        Some(file_name.skip(snapshot_prefix().len() as int))
    } else {
        None
    }
}

/// The profiles among the files of a directory, in the directory's order.
pub open spec fn profiles_in(file_names: Seq<Seq<char>>) -> Seq<Seq<char>>
    decreases file_names.len(),
{
    if file_names.len() == 0 {
        Seq::empty()
    } else {
        let init = profiles_in(file_names.drop_last());
        match profile_of(file_names.last()) {
            Some(p) => init.push(p),
            None => init,
        }
    }
}

/// A change to the configuration directory, by file name within it.
#[derive(PartialEq, Eq, Debug)]
pub enum FileOp {
    /// Create an empty file.
    CreateEmpty { file: String },
    /// Remove a file.
    Remove { file: String },
    /// Make `target` another name of the file `source`.
    HardLink { source: String, target: String },
}

/// Why the store refused an operation.
#[derive(PartialEq, Eq, Structural, Clone, Copy, Debug)]
pub enum ProfileError {
    /// A profile of that name exists already.
    AlreadyExists,
    /// No profile of that name exists.
    NotFound,
}

/// One profile snapshot: its name and the bytes of its file.
#[derive(Debug)]
pub struct Snapshot {
    pub name: String,
    pub content: Vec<u8>,
}

/// The configuration directory: the bytes of the active configuration file
/// (`None` where it is missing) and the snapshots in directory order.
#[derive(Debug)]
pub struct ProfileStore {
    pub active: Option<Vec<u8>>,
    pub snapshots: Vec<Snapshot>,
}

/// The configuration directory as values.
pub struct StoreView {
    pub active: Option<Seq<u8>>,
    pub snapshots: Seq<(Seq<char>, Seq<u8>)>,
}

pub open spec fn snapshot_views(s: Seq<Snapshot>) -> Seq<(Seq<char>, Seq<u8>)> {
    s.map_values(|x: Snapshot| (x.name@, x.content@))
}

impl View for ProfileStore {
    type V = StoreView;

    open spec fn view(&self) -> StoreView {
        StoreView {
            active: match self.active {
                Some(a) => Some(a@),
                None => None,
            },
            snapshots: snapshot_views(self.snapshots@),
        }
    }
}

impl StoreView {
    /// The names of the profiles, in directory order.
    pub open spec fn names(self) -> Seq<Seq<char>> {
        self.snapshots.map_values(|x: (Seq<char>, Seq<u8>)| x.0)
    }

    pub open spec fn has_profile(self, name: Seq<char>) -> bool {
        exists|i: int| 0 <= i < self.snapshots.len() && self.snapshots[i].0 == name
    }

    /// Snapshot `i` is the first whose bytes are `content`.
    pub open spec fn is_first_match(self, content: Seq<u8>, i: int) -> bool {
        &&& 0 <= i < self.snapshots.len()
        &&& self.snapshots[i].1 == content
        &&& forall|j: int| 0 <= j < i ==> self.snapshots[j].1 != content
    }

    /// Snapshot `i` is the first named `name`.
    pub open spec fn is_first_named(self, name: Seq<char>, i: int) -> bool {
        &&& 0 <= i < self.snapshots.len()
        &&& self.snapshots[i].0 == name
        &&& forall|j: int| 0 <= j < i ==> self.snapshots[j].0 != name
    }

    /// The current profile: the first snapshot whose bytes are those of the
    /// active file; empty where the file is missing or matches none.
    pub open spec fn current(self) -> Seq<char> {
        match self.active {
            None => Seq::empty(),
            Some(a) => if exists|i: int| self.is_first_match(a, i) {
                self.snapshots[choose|i: int| self.is_first_match(a, i)].0
            } else {
                Seq::empty()
            },
        }
    }

    /// The directory once a missing active file has been created empty.
    pub open spec fn bootstrapped(self) -> StoreView {
        StoreView {
            active: match self.active {
                Some(a) => Some(a),
                None => Some(Seq::empty()),
            },
            snapshots: self.snapshots,
        }
    }

    /// The directory with an empty snapshot named `name` added last.
    pub open spec fn with_profile(self, name: Seq<char>) -> StoreView {
        StoreView { active: self.active, snapshots: self.snapshots.push((name, Seq::empty())) }
    }

    /// The bytes of the snapshot of `name`.
    pub open spec fn content_of(self, name: Seq<char>) -> Seq<u8> {
        self.snapshots[choose|i: int| self.is_first_named(name, i)].1
    }

    /// The directory once the active file is a link to the snapshot of `name`.
    pub open spec fn switched(self, name: Seq<char>) -> StoreView {
        StoreView { active: Some(self.content_of(name)), snapshots: self.snapshots }
    }
}

/// The file name of the snapshot of `profile`.
pub fn snapshot_file_name(profile: &str) -> (r: String)
    ensures
        r@ == snapshot_name(profile@),
{
    let mut r = String::from_str(CONFIG_FILE);
    r.append(SEPARATOR);
    r.append(profile);
    r
}

/// The profile whose snapshot the file `file_name` is, if it is one.
pub fn profile_name_of(file_name: &str) -> (r: Option<String>)
    ensures
        match r {
            Some(p) => profile_of(file_name@) == Some(p@),
            None => profile_of(file_name@) is None,
        },
{
    let mut prefix = String::from_str(CONFIG_FILE);
    prefix.append(SEPARATOR);
    let plen = prefix.as_str().unicode_len();
    let flen = file_name.unicode_len();
    if flen < plen {
        assert(!snapshot_prefix().is_prefix_of(file_name@));
        return None;
    }
    let head = file_name.substring_char(0, plen).to_owned();
    if head == prefix {
        assert(snapshot_prefix().is_prefix_of(file_name@));
        let tail = file_name.substring_char(plen, flen).to_owned();
        assert(tail@ =~= file_name@.skip(plen as int));
        Some(tail)
    } else {
        assert(!snapshot_prefix().is_prefix_of(file_name@)) by {
            if snapshot_prefix().is_prefix_of(file_name@) {
                assert(head@ =~= prefix@);
            }
        }
        None
    }
}

/// The profiles among `file_names`, the names of the regular files of the
/// configuration directory, in the same order.
pub fn profile_list(file_names: &Vec<String>) -> (r: Vec<String>)
    ensures
        r@.map_values(|s: String| s@) == profiles_in(file_names@.map_values(|s: String| s@)),
{
    let ghost names = file_names@.map_values(|s: String| s@);
    let mut r: Vec<String> = Vec::new();
    let mut i: usize = 0;
    while i < file_names.len()
        invariant
            i <= file_names.len(),
            names == file_names@.map_values(|s: String| s@),
            r@.map_values(|s: String| s@) == profiles_in(names.subrange(0, i as int)),
        decreases file_names.len() - i,
    {
        let ghost before = r@.map_values(|s: String| s@);
        assert(names.subrange(0, i + 1).drop_last() =~= names.subrange(0, i as int));
        match profile_name_of(file_names[i].as_str()) {
            Some(p) => {
                r.push(p);
                assert(r@.map_values(|s: String| s@) =~= before.push(p@));
            },
            None => {},
        }
        i = i + 1;
    }
    assert(names.subrange(0, i as int) =~= names);
    r
}

/// Whether two byte strings are equal.
fn same_bytes(a: &Vec<u8>, b: &Vec<u8>) -> (r: bool)
    ensures
        r == (a@ == b@),
{
    if a.len() != b.len() {
        return false;
    }
    let mut i: usize = 0;
    while i < a.len()
        invariant
            a.len() == b.len(),
            i <= a.len(),
            forall|j: int| 0 <= j < i ==> a@[j] == b@[j],
        decreases a.len() - i,
    {
        if a[i] != b[i] {
            return false;
        }
        i = i + 1;
    }
    assert(a@ =~= b@);
    true
}

fn config_file_name() -> (r: String)
    ensures
        r@ == CONFIG_FILE@,
{
    String::from_str(CONFIG_FILE)
}

impl ProfileStore {
    /// The names of the profiles, in directory order.
    pub fn list_profiles(&self) -> (r: Vec<String>)
        ensures
            r@.map_values(|s: String| s@) == self@.names(),
    {
        let mut r: Vec<String> = Vec::new();
        let mut i: usize = 0;
        while i < self.snapshots.len()
            invariant
                i <= self.snapshots.len(),
                r@.map_values(|s: String| s@) == self@.names().subrange(0, i as int),
            decreases self.snapshots.len() - i,
        {
            let ghost before = r@.map_values(|s: String| s@);
            let name = self.snapshots[i].name.clone();
            r.push(name);
            assert(self@.names()[i as int] == name@);
            assert(r@.map_values(|s: String| s@) =~= before.push(name@));
            assert(self@.names().subrange(0, i + 1) =~= self@.names().subrange(0, i as int).push(name@));
            i = i + 1;
        }
        assert(self@.names().subrange(0, i as int) =~= self@.names());
        r
    }

    /// The current profile, or the empty name where the active file is
    /// missing or matches no snapshot. A missing active file is created
    /// empty: the operation that does so comes back beside the name.
    pub fn current_profile(&mut self) -> (r: (String, Option<FileOp>))
        ensures
            r.0@ == old(self)@.current(),
            final(self)@ == old(self)@.bootstrapped(),
            old(self)@.active is Some ==> r.1 is None,
            old(self)@.active is None ==> (r.1 matches Some(FileOp::CreateEmpty { file }) && file@
                == CONFIG_FILE@),
    {
        if self.active.is_none() {
            self.active = Some(Vec::new());
            assert(self@.active == old(self)@.bootstrapped().active);
            return (String::new(), Some(FileOp::CreateEmpty { file: config_file_name() }));
        }
        let active = self.active.as_ref().unwrap();
        let ghost a = active@;
        let ghost v = self@;
        let mut i: usize = 0;
        while i < self.snapshots.len()
            invariant
                i <= self.snapshots.len(),
                v == self@,
                v == old(self)@,
                v.active == Some(a),
                active@ == a,
                forall|j: int| 0 <= j < i ==> v.snapshots[j].1 != a,
            decreases self.snapshots.len() - i,
        {
            if same_bytes(&self.snapshots[i].content, active) {
                assert(v.is_first_match(a, i as int));
                assert forall|k: int| v.is_first_match(a, k) implies k == i by {
                    if k < i {
                    } else if k > i {
                        assert(v.snapshots[i as int].1 == a);
                    }
                }
                let name = self.snapshots[i].name.clone();
                assert(v.snapshots[i as int].0 == name@);
                assert(exists|k: int| v.is_first_match(a, k));
                assert(v.current() == name@);
                assert(v.bootstrapped() == v);
                return (name, None);
            }
            i = i + 1;
        }
        assert(!exists|k: int| v.is_first_match(a, k));
        (String::new(), None)
    }

    /// Adds an empty snapshot named `name`, unless a profile of that name
    /// exists. The operation that creates its file comes back.
    pub fn create_profile(&mut self, name: &str) -> (r: Result<FileOp, ProfileError>)
        ensures
            old(self)@.has_profile(name@) ==> r == Err::<FileOp, ProfileError>(
                ProfileError::AlreadyExists,
            ) && final(self)@ == old(self)@,
            !old(self)@.has_profile(name@) ==> (r matches Ok(FileOp::CreateEmpty { file }) && file@
                == snapshot_name(name@)) && final(self)@ == old(self)@.with_profile(name@),
    {
        match self.find(name) {
            Some(_) => Err(ProfileError::AlreadyExists),
            None => {
                let ghost before = self@;
                self.snapshots.push(Snapshot { name: name.to_owned(), content: Vec::new() });
                assert(self@.snapshots =~= before.with_profile(name@).snapshots);
                Ok(FileOp::CreateEmpty { file: snapshot_file_name(name) })
            },
        }
    }

    /// The index of the first snapshot named `name`.
    fn find(&self, name: &str) -> (r: Option<usize>)
        ensures
            match r {
                Some(i) => self@.is_first_named(name@, i as int),
                None => !self@.has_profile(name@),
            },
    {
        let wanted = name.to_owned();
        let mut i: usize = 0;
        while i < self.snapshots.len()
            invariant
                i <= self.snapshots.len(),
                wanted@ == name@,
                forall|j: int| 0 <= j < i ==> self@.snapshots[j].0 != name@,
            decreases self.snapshots.len() - i,
        {
            if self.snapshots[i].name == wanted {
                return Some(i);
            }
            i = i + 1;
        }
        None
    }

    /// Points the active file at the snapshot of `name`: the active file is
    /// removed, then made a link to the snapshot. The two operations come
    /// back in that order.
    pub fn repoint(&mut self, name: &str) -> (r: Result<Vec<FileOp>, ProfileError>)
        ensures
            !old(self)@.has_profile(name@) ==> r == Err::<Vec<FileOp>, ProfileError>(
                ProfileError::NotFound,
            ) && final(self)@ == old(self)@,
            old(self)@.has_profile(name@) ==> (r matches Ok(ops) && ops@.len() == 2 && (
            ops@[0] matches FileOp::Remove { file } && file@ == CONFIG_FILE@) && (
            ops@[1] matches FileOp::HardLink { source, target } && source@ == snapshot_name(name@)
                && target@ == CONFIG_FILE@)) && final(self)@ == old(self)@.switched(name@),
    {
        match self.find(name) {
            None => Err(ProfileError::NotFound),
            Some(i) => {
                let ghost before = self@;
                proof {
                    assert forall|k: int| before.is_first_named(name@, k) implies k == i by {
                        if k < i {
                        } else if k > i {
                            assert(before.snapshots[i as int].0 == name@);
                        }
                    }
                }
                self.active = Some(self.snapshots[i].content.clone());
                assert(self@.active == before.switched(name@).active);
                let mut ops: Vec<FileOp> = Vec::new();
                ops.push(FileOp::Remove { file: config_file_name() });
                ops.push(
                    FileOp::HardLink { source: snapshot_file_name(name), target: config_file_name() },
                );
                Ok(ops)
            },
        }
    }
}

/// A name that no profile has can be created, and once created it is taken:
/// a second creation under the same name is refused.
pub proof fn lemma_create_profile_once(s: StoreView, name: Seq<char>)
    requires
        !s.has_profile(name),
    ensures
        s.with_profile(name).has_profile(name),
{
    let t = s.with_profile(name);
    assert(t.snapshots[s.snapshots.len() as int].0 == name);
}

/// Asking for the current profile twice gives the same name twice, and the
/// second time changes nothing. Where the active file is missing and some
/// snapshot is empty, this does not hold: the first answer is the empty name,
/// while the empty active file it creates then matches that snapshot.
pub proof fn lemma_current_profile_idempotent(s: StoreView)
    requires
        s.active is Some || forall|i: int| 0 <= i < s.snapshots.len() ==> s.snapshots[i].1.len() > 0,
    ensures
        s.bootstrapped().current() == s.current(),
        s.bootstrapped().bootstrapped() == s.bootstrapped(),
{
    if s.active is None {
        let b = s.bootstrapped();
        assert(!exists|i: int| b.is_first_match(Seq::empty(), i)) by {
            assert forall|i: int| !b.is_first_match(Seq::empty(), i) by {
                if 0 <= i < b.snapshots.len() {
                    assert(b.snapshots[i].1.len() > 0);
                }
            }
        }
    }
}

/// After the active file is pointed at the snapshot of profile `p`, the
/// current profile is `p`. This needs that no earlier snapshot holds the
/// same bytes: the first match wins.
pub proof fn lemma_switch_round_trip(s: StoreView, p: Seq<char>)
    requires
        s.has_profile(p),
        forall|k: int, j: int|
            #![trigger s.is_first_named(p, k), s.snapshots[j]]
            s.is_first_named(p, k) && 0 <= j < k ==> s.snapshots[j].1 != s.snapshots[k].1,
    ensures
        s.switched(p).current() == p,
{
    let i = choose|i: int| 0 <= i < s.snapshots.len() && s.snapshots[i].0 == p;
    lemma_first_exists(s, p, i);
    let k = choose|k: int| s.is_first_named(p, k);
    let t = s.switched(p);
    let c = s.snapshots[k].1;
    assert(t.active == Some(c));
    assert(t.is_first_match(c, k));
    assert forall|m: int| t.is_first_match(c, m) implies m == k by {
        if m < k {
            assert(s.snapshots[m].1 != s.snapshots[k].1);
        } else if m > k {
            assert(t.snapshots[k].1 == c);
        }
    }
    assert(exists|m: int| t.is_first_match(c, m));
    let m = choose|m: int| t.is_first_match(c, m);
    assert(m == k);
    assert(t.snapshots[k].0 == p);
    assert(t.is_first_match(t.active->0, k));
}

/// Where some snapshot is named `p`, a first one is.
proof fn lemma_first_exists(s: StoreView, p: Seq<char>, i: int)
    requires
        0 <= i < s.snapshots.len(),
        s.snapshots[i].0 == p,
    ensures
        exists|k: int| s.is_first_named(p, k),
    decreases i,
{
    if exists|j: int| 0 <= j < i && s.snapshots[j].0 == p {
        let j = choose|j: int| 0 <= j < i && s.snapshots[j].0 == p;
        lemma_first_exists(s, p, j);
    } else {
        assert(s.is_first_named(p, i));
    }
}

} // verus!
