use vstd::prelude::*;
use crate::image::{code_range, declared_code_range};
use crate::resolver::{names, resolve, resolve_spec, PatternEntry};
use crate::table::OffsetTable;

verus! {

/// The signatures registered for one module, under the module's name.
pub struct ModulePatterns {
    pub module: String,
    pub entries: Vec<PatternEntry>,
}

/// What acquiring a module's image from the target process gave.
pub enum Acquired {
    /// No module of that name is loaded.
    NotFound,
    /// The module was found but its bytes could not be read.
    ReadFailed,
    /// The module's bytes, read from its base for its reported size.
    Image(Vec<u8>),
}

/// Why a build was abandoned, with the module it was abandoned at.
#[derive(Debug)]
pub enum BuildError {
    ModuleNotFound(String),
    MemoryReadFailure(String),
    MalformedImage(String),
}

pub type TableView = Seq<(Seq<char>, u32)>;

/// The window that is scanned: pelite's code range, clipped to the image.
pub open spec fn scan_window(len: int, start: u32, end: u32) -> (int, int) {
    let lo = if start < len { start as int } else { len };
    let hi0 = if end < len { end as int } else { len };
    (lo, if hi0 < lo { lo } else { hi0 })
}

/// `code` is a possible outcome of parsing what was acquired: a parse that
/// succeeds gives the code range the image declares.
pub open spec fn parse_agrees(a: Acquired, code: Option<(u32, u32)>) -> bool {
    match a {
        Acquired::Image(b) => code.is_some() ==> code == Some(declared_code_range(b@)),
        _ => true,
    }
}

/// The offsets and stale names one module yields from what was acquired for
/// it, given the code range that parsing the image gave (`None`: the bytes
/// are no PE32+ image), or the error that ends the build there. An image
/// past 4 GiB is malformed: 32-bit RVAs cannot address it.
pub open spec fn module_outcome(m: ModulePatterns, a: Acquired, code: Option<(u32, u32)>) -> Result<(TableView, Seq<Seq<char>>), BuildError> {
    match a {
        Acquired::NotFound => Err(BuildError::ModuleNotFound(m.module)),
        Acquired::ReadFailed => Err(BuildError::MemoryReadFailure(m.module)),
        Acquired::Image(b) => if b@.len() > u32::MAX {
            Err(BuildError::MalformedImage(m.module))
        } else {
            match code {
                None => Err(BuildError::MalformedImage(m.module)),
                Some(range) => {
                    let w = scan_window(b@.len() as int, range.0, range.1);
                    Ok(resolve_spec(b@, w.0, w.1, m.entries@))
                },
            }
        },
    }
}

/// Module name to offset table, in the order the modules were registered.
pub struct OffsetMap {
    modules: Vec<(String, OffsetTable)>,
}

impl View for OffsetMap {
    type V = Seq<(Seq<char>, TableView)>;

    closed spec fn view(&self) -> Seq<(Seq<char>, TableView)> {
        self.modules@.map_values(|e: (String, OffsetTable)| (e.0@, e.1@))
    }
}

impl OffsetMap {
    pub closed spec fn wf(&self) -> bool {
        forall|i: int| 0 <= i < self.modules@.len() ==> (#[trigger] self.modules@[i]).1.wf()
    }

    pub fn len(&self) -> (r: usize)
        ensures
            r == self@.len(),
    {
        self.modules.len()
    }

    /// The module name and offset table at position `i`.
    pub fn module(&self, i: usize) -> (r: (&str, &OffsetTable))
        requires
            i < self@.len(),
        ensures
            r.0@ == self@[i as int].0,
            r.1@ == self@[i as int].1,
    {
        (self.modules[i].0.as_str(), &self.modules[i].1)
    }

    /// The offset table of the first module registered under `name`.
    pub fn table(&self, name: &String) -> (r: Option<&OffsetTable>)
        requires
            self.wf(),
        ensures
            match r {
                Some(t) => t.wf() && exists|i: int|
                    0 <= i < self@.len() && #[trigger] self@[i] == (name@, t@),
                None => forall|i: int| 0 <= i < self@.len() ==> #[trigger] self@[i].0 != name@,
            },
    {
        let mut i: usize = 0;
        while i < self.modules.len()
            invariant
                self.wf(),
                0 <= i <= self@.len(),
                self@.len() == self.modules@.len(),
                forall|j: int| 0 <= j < i ==> #[trigger] self@[j].0 != name@,
            decreases self.modules@.len() - i,
        {
            proof {
                assert(self@[i as int] == (self.modules@[i as int].0@, self.modules@[i as int].1@));
            }
            if self.modules[i].0 == *name {
                proof {
                    assert(self.modules@[i as int].1.wf());
                }
                return Some(&self.modules[i].1);
            }
            i = i + 1;
        }
        None
    }
}

/// Builds an offset map one module at a time. The caller asks which module
/// is due, acquires its image, and feeds back what it got; the first module
/// that cannot be found, read or parsed ends the build with that error, and
/// no map is handed out.
pub struct OffsetMapBuilder {
    targets: Vec<ModulePatterns>,
    done: Vec<(String, OffsetTable)>,
    failure: Option<BuildError>,
}

impl OffsetMapBuilder {
    pub closed spec fn targets(&self) -> Seq<ModulePatterns> {
        self.targets@
    }

    /// The modules resolved so far, with their offsets.
    pub closed spec fn done(&self) -> Seq<(Seq<char>, TableView)> {
        self.done@.map_values(|e: (String, OffsetTable)| (e.0@, e.1@))
    }

    pub closed spec fn failure(&self) -> Option<BuildError> {
        self.failure
    }

    pub closed spec fn wf(&self) -> bool {
        &&& self.done@.len() <= self.targets@.len()
        &&& forall|i: int| 0 <= i < self.done@.len() ==> (#[trigger] self.done@[i]).1.wf()
    }

    /// A module is still to be acquired: nothing failed and not every target
    /// is done.
    pub open spec fn is_pending(&self) -> bool {
        self.failure().is_none() && self.done().len() < self.targets().len()
    }

    /// What the build gives once nothing is pending.
    pub open spec fn outcome(&self) -> Result<Seq<(Seq<char>, TableView)>, BuildError> {
        match self.failure() {
            Some(e) => Err(e),
            None => Ok(self.done()),
        }
    }

    /// `after` is `before` once `acquired` was fed for the module that was
    /// due, with `code` as the outcome of parsing it, and `stale` the names
    /// that matched nowhere in it.
    pub open spec fn fed(
        before: OffsetMapBuilder,
        acquired: Acquired,
        code: Option<(u32, u32)>,
        after: OffsetMapBuilder,
        stale: Seq<Seq<char>>,
    ) -> bool {
        let m = before.targets()[before.done().len() as int];
        &&& after.targets() == before.targets()
        &&& match module_outcome(m, acquired, code) {
            Ok(res) => {
                &&& after.failure().is_none()
                &&& after.done() == before.done().push((m.module@, res.0))
                &&& stale == res.1
            },
            Err(e) => {
                &&& after.failure() == Some(e)
                &&& after.done() == before.done()
                &&& stale.len() == 0
            },
        }
    }

    proof fn lemma_done_len(&self)
        ensures
            self.done().len() == self.done@.len(),
    {
    }

    pub fn new(targets: Vec<ModulePatterns>) -> (r: OffsetMapBuilder)
        ensures
            r.wf(),
            r.targets() == targets@,
            r.done().len() == 0,
            r.failure().is_none(),
    {
        OffsetMapBuilder { targets, done: Vec::new(), failure: None }
    }

    /// The name of the module to acquire next, or `None` when the build is
    /// over.
    pub fn next_module(&self) -> (r: Option<&String>)
        requires
            self.wf(),
        ensures
            match r {
                Some(m) => self.is_pending() && *m == self.targets()[self.done().len() as int].module,
                None => !self.is_pending(),
            },
    {
        proof {
            self.lemma_done_len();
        }
        if self.failure.is_none() && self.done.len() < self.targets.len() {
            Some(&self.targets[self.done.len()].module)
        } else {
            None
        }
    }

    /// Takes what was acquired for the module that is due: parses and
    /// resolves it and records its offsets, or ends the build with the
    /// error. Returns the names of the module's signatures that matched
    /// nowhere.
    pub fn feed(&mut self, acquired: Acquired) -> (stale: Vec<String>)
        requires
            old(self).wf(),
            old(self).is_pending(),
        ensures
            final(self).wf(),
            exists|code: Option<(u32, u32)>|
                #[trigger] parse_agrees(acquired, code) && Self::fed(
                    *old(self),
                    acquired,
                    code,
                    *final(self),
                    names(stale@),
                ),
    {
        let code = match &acquired {
            Acquired::Image(bytes) => code_range(bytes.as_slice()),
            _ => None,
        };
        let stale = self.feed_parsed(acquired, code);
        proof {
            assert(parse_agrees(acquired, code));
        }
        stale
    }

    /// What `feed` does once the image is parsed, for each outcome `code` of
    /// that parse: records the module's offsets, or ends the build with the
    /// error. Returns the names of the module's signatures that matched
    /// nowhere.
    pub fn feed_parsed(&mut self, acquired: Acquired, code: Option<(u32, u32)>) -> (stale: Vec<String>)
        requires
            old(self).wf(),
            old(self).is_pending(),
        ensures
            final(self).wf(),
            Self::fed(*old(self), acquired, code, *final(self), names(stale@)),
    {
        proof {
            self.lemma_done_len();
        }
        let k = self.done.len();
        let module = self.targets[k].module.clone();
        match acquired {
            Acquired::NotFound => {
                self.failure = Some(BuildError::ModuleNotFound(module));
                Vec::new()
            },
            Acquired::ReadFailed => {
                self.failure = Some(BuildError::MemoryReadFailure(module));
                Vec::new()
            },
            Acquired::Image(bytes) => {
                let n = bytes.len();
                if n > 0xFFFF_FFFF {
                    self.failure = Some(BuildError::MalformedImage(module));
                    return Vec::new();
                }
                match code {
                    None => {
                        self.failure = Some(BuildError::MalformedImage(module));
                        Vec::new()
                    },
                    Some(range) => {
                        let lo: usize = if (range.0 as usize) < n { range.0 as usize } else { n };
                        let hi0: usize = if (range.1 as usize) < n { range.1 as usize } else { n };
                        let hi: usize = if hi0 < lo { lo } else { hi0 };
                        let r = resolve(bytes.as_slice(), lo, hi, &self.targets[k].entries);
                        let ghost before = self.done();
                        self.done.push((module, r.offsets));
                        proof {
                            assert(self.done() =~= before.push((self.targets@[k as int].module@, r.offsets@)));
                        }
                        r.stale
                    },
                }
            },
        }
    }

    /// Ends the build: the map of every module, or the error that stopped it.
    pub fn finish(self) -> (r: Result<OffsetMap, BuildError>)
        requires
            self.wf(),
            !self.is_pending(),
        ensures
            match r {
                Ok(m) => m.wf() && self.outcome() == Ok::<Seq<(Seq<char>, TableView)>, BuildError>(m@),
                Err(e) => self.outcome() == Err::<Seq<(Seq<char>, TableView)>, BuildError>(e),
            },
    {
        match self.failure {
            Some(e) => Err(e),
            None => {
                let m = OffsetMap { modules: self.done };
                proof {
                    assert(m@ =~= self.done());
                }
                Ok(m)
            },
        }
    }
}

/// A module that cannot be found ends the build with that module's
/// `ModuleNotFound`: nothing is pending afterwards, and the build's outcome
/// is that error rather than a map, whatever the modules before it gave.
pub proof fn missing_module_aborts_build(
    before: OffsetMapBuilder,
    code: Option<(u32, u32)>,
    after: OffsetMapBuilder,
    stale: Seq<Seq<char>>,
)
    requires
        before.is_pending(),
        OffsetMapBuilder::fed(before, Acquired::NotFound, code, after, stale),
    ensures
        !after.is_pending(),
        after.done() == before.done(),
        after.outcome() == Err::<Seq<(Seq<char>, TableView)>, BuildError>(
            BuildError::ModuleNotFound(before.targets()[before.done().len() as int].module),
        ),
{
}

} // verus!
