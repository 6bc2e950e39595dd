use vstd::prelude::*;

use std::collections::BTreeMap;
use vstd::std_specs::btree::increasing_seq;
use vstd::std_specs::cmp::OrdSpec;
use vstd::std_specs::iter::IteratorSpec;

use crate::common::{Error, EBADF, EINVAL, EMFILE};
use crate::gap_mgr::GapMgr;
use crate::range::Range;
use crate::uid::{NewUID, UidGen};

verus! {

broadcast use vstd::std_specs::btree::group_btree_axioms;

/// `open(2)`'s close-on-exec flag.
pub const O_CLOEXEC: i32 = 0o2000000;
/// `fcntl(2)`'s close-on-exec descriptor flag.
pub const FD_CLOEXEC: u32 = 1;
/// Descriptors are numbered below this bound.
pub const MAX_FD: u64 = 0x7fff_ffff;

// inotify event bits sent when a file's last descriptor closes.
pub const IN_CLOSE_WRITE: u32 = 0x0000_0008;
pub const IN_CLOSE_NOWRITE: u32 = 0x0000_0010;
pub const IN_ISDIR: u32 = 0x4000_0000;

/// Flags of one descriptor.
#[derive(Clone, Copy, Debug, Default, PartialEq, Eq, Structural)]
pub struct FDFlags {
    pub CloseOnExec: bool,
}

impl FDFlags {
    /// The flags as `open(2)` flags.
    pub fn ToLinuxFileFlags(&self) -> (r: i32)
        ensures
            r == (if self.CloseOnExec { O_CLOEXEC } else { 0 }),
    {
        if self.CloseOnExec {
            return O_CLOEXEC;
        }
        0
    }

    /// The flags as `fcntl(F_GETFD)` flags.
    pub fn ToLinuxFDFlags(&self) -> (r: u32)
        ensures
            r == (if self.CloseOnExec { FD_CLOEXEC } else { 0 }),
    {
        if self.CloseOnExec {
            return FD_CLOEXEC;
        }
        0
    }
}

/// An open file as the descriptor table sees it.
#[derive(Clone, Copy, Debug, PartialEq, Eq, Structural)]
pub struct File {
    pub unique_id: u64,
    pub is_dir: bool,
    pub writable: bool,
}

/// One entry of the table.
#[derive(Clone, Copy, Debug, PartialEq, Eq, Structural)]
pub struct Descriptor {
    pub file: File,
    pub flags: FDFlags,
}

/// The inotify event of closing the last descriptor of `file`.
pub open spec fn close_event(file: File) -> u32 {
    (if file.is_dir { IN_ISDIR } else { 0 }) | (if file.writable { IN_CLOSE_WRITE } else { IN_CLOSE_NOWRITE })
}

/// Whether `ks` lists the keys of `m` in increasing order.
pub open spec fn sorted_keys_of(ks: Seq<i32>, m: Map<i32, Descriptor>) -> bool {
    &&& ks.to_set() == m.dom()
    &&& forall|i: int, j: int| 0 <= i < j < ks.len() ==> ks[i] < ks[j]
}

/// A process's file descriptor table: the descriptors by number, and the
/// numbers that are free.
pub struct FDTableInternal {
    pub gaps: GapMgr,
    pub descTbl: BTreeMap<i32, Descriptor>,
}

impl FDTableInternal {
    /// The free numbers are exactly those of `[0, MAX_FD)` without a descriptor.
    pub open spec fn wf(&self) -> bool {
        &&& self.gaps.wf()
        &&& self.gaps.range == (Range { start: 0, len: MAX_FD })
        &&& forall|fd: i32| #[trigger] self.descTbl@.contains_key(fd) ==> 0 <= fd < MAX_FD
        &&& forall|x: int|
            #[trigger] self.gaps.free(x) <==> (0 <= x < MAX_FD && !self.descTbl@.contains_key(
                x as i32,
            ))
    }

    pub open spec fn view(&self) -> Map<i32, Descriptor> {
        self.descTbl@
    }

    /// An empty table.
    pub fn New() -> (r: FDTableInternal)
        ensures
            r.wf(),
            r@ == Map::<i32, Descriptor>::empty(),
    {
        FDTableInternal { gaps: GapMgr::New(0, MAX_FD), descTbl: BTreeMap::new() }
    }

    /// The number of descriptors.
    pub fn Size(&self) -> (r: usize)
        ensures
            r == self@.len(),
    {
        self.descTbl.len()
    }

    /// The descriptor numbers in increasing order.
    pub fn GetFDs(&self) -> (r: Vec<i32>)
        ensures
            sorted_keys_of(r@, self@),
            r@.len() == self@.len(),
    {
        let ghost ks = self.descTbl.iter().remaining();
        let mut r: Vec<i32> = Vec::new();
        for kv in it: self.descTbl.iter()
            invariant
                it.seq() == ks,
                r@ == ks.take(it.index() as int).map_values(|x: (&i32, &Descriptor)| *x.0),
        {
            r.push(*kv.0);
            proof {
                assert(ks.take(it.index() + 1) == ks.take(it.index() as int).push(ks[it.index() as int]));
            }
        }
        assert(r@ == ks.map_values(|x: (&i32, &Descriptor)| *x.0));
        proof {
            broadcast use vstd::laws_cmp::group_laws_cmp;
            assert(increasing_seq(r@));
            vstd::std_specs::btree::axiom_increasing_seq_meaning::<i32>(r@);
            assert forall|i: int, j: int| 0 <= i < j < r.len() implies r@[i] < r@[j] by {
                assert(r@[i].cmp_spec(&r@[j]) is Less);
            }
            assert forall|k: i32| self@.dom().contains(k) implies r@.to_set().contains(k) by {
                assert(ks.contains((&k, &self@[k])));
                let i = choose|i: int| 0 <= i < ks.len() && ks[i] == (&k, &self@[k]);
                assert(r@[i] == k);
            }
            assert forall|k: i32| r@.to_set().contains(k) implies self@.dom().contains(k) by {
                let i = choose|i: int| 0 <= i < r.len() && r@[i] == k;
                assert(self@.contains_key(*ks[i].0));
            }
            assert(r@.to_set() =~= self@.dom());
            assert(r@.no_duplicates()) by {
                assert forall|i: int, j: int| 0 <= i < r.len() && 0 <= j < r.len() && i != j implies r@[i] != r@[j] by {
                    if i < j {
                        assert(r@[i] < r@[j]);
                    } else {
                        assert(r@[j] < r@[i]);
                    }
                }
            }
            r@.unique_seq_to_set();
        }
        r
    }

    /// The files, in increasing order of their descriptor numbers.
    pub fn GetFiles(&self) -> (r: Vec<File>)
        ensures
            exists|ks: Seq<i32>|
                #![trigger sorted_keys_of(ks, self@)]
                sorted_keys_of(ks, self@) && ks.len() == r@.len() && forall|i: int|
                    0 <= i < ks.len() ==> r@[i] == #[trigger] self@[ks[i]].file,
    {
        let fds = self.GetFDs();
        let mut r: Vec<File> = Vec::new();
        let mut i: usize = 0;
        while i < fds.len()
            invariant
                i <= fds.len(),
                sorted_keys_of(fds@, self@),
                r.len() == i,
                forall|k: int| 0 <= k < i ==> r@[k] == #[trigger] self@[fds@[k]].file,
            decreases fds.len() - i,
        {
            let fd = fds[i];
            assert(fds@.to_set().contains(fd));
            let d = self.descTbl.get(&fd).unwrap();
            r.push(d.file);
            i = i + 1;
        }
        r
    }

    /// The highest descriptor number, or 0 when the table is empty.
    pub fn GetLastFd(&self) -> (r: i32)
        ensures
            self@.len() == 0 ==> r == 0,
            self@.len() > 0 ==> self@.contains_key(r) && forall|fd: i32| #[trigger] self@.contains_key(fd) ==> fd <= r,
    {
        let fds = self.GetFDs();
        if fds.len() == 0 {
            return 0;
        }
        let last = fds[fds.len() - 1];
        proof {
            assert(fds@.to_set().contains(last));
            assert forall|fd: i32| #[trigger] self@.contains_key(fd) implies fd <= last by {
                assert(fds@.to_set().contains(fd));
                let i = choose|i: int| 0 <= i < fds.len() && fds@[i] == fd;
                if i < fds.len() - 1 {
                    assert(fds@[i] < fds@[fds.len() - 1]);
                }
            }
        }
        last
    }

    /// The descriptor `fd`: `EBADF` when there is none.
    pub fn Get(&self, fd: i32) -> (r: Result<(File, FDFlags), Error>)
        ensures
            r is Ok <==> self@.contains_key(fd),
            r matches Ok((f, fl)) ==> self@[fd] == (Descriptor { file: f, flags: fl }),
            r matches Err(e) ==> e == Error::SysError(EBADF),
    {
        match self.descTbl.get(&fd) {
            None => Err(Error::SysError(EBADF)),
            Some(d) => Ok((d.file, d.flags)),
        }
    }

    /// Replaces the flags of descriptor `fd`: `EBADF` when there is none.
    pub fn SetFlags(&mut self, fd: i32, flags: &FDFlags) -> (r: Result<(), Error>)
        requires
            old(self).wf(),
        ensures
            final(self).wf(),
            r is Ok <==> old(self)@.contains_key(fd),
            r is Err ==> r == Err::<(), Error>(Error::SysError(EBADF)) && final(self)@ == old(self)@,
            r is Ok ==> final(self)@ == old(self)@.insert(fd, Descriptor { flags: *flags, ..old(self)@[fd] }),
    {
        if fd < 0 {
            return Err(Error::SysError(EBADF));
        }
        match self.descTbl.get(&fd) {
            None => Err(Error::SysError(EBADF)),
            Some(d) => {
                let nd = Descriptor { file: d.file, flags: *flags };
                self.descTbl.insert(fd, nd);
                proof { self.lemma_same_domain(old(self)); }
                Ok(())
            },
        }
    }

    /// Gives every descriptor in `[startfd, endfd)` the flags `flags`; `EINVAL`
    /// for a negative start or an empty range.
    pub fn SetFlagsForRange(&mut self, startfd: i32, endfd: i32, flags: FDFlags) -> (r: Result<(), Error>)
        requires
            old(self).wf(),
        ensures
            final(self).wf(),
            r is Err <==> startfd < 0 || startfd >= endfd,
            r is Err ==> r == Err::<(), Error>(Error::SysError(EINVAL)) && final(self)@ == old(self)@,
            r is Ok ==> final(self)@.dom() == old(self)@.dom() && forall|fd: i32| #[trigger] final(self)@.contains_key(fd) ==> final(self)@[fd] == (if startfd <= fd < endfd {
                Descriptor { flags, ..old(self)@[fd] }
            } else {
                old(self)@[fd]
            }),
    {
        if startfd < 0 || startfd >= endfd {
            return Err(Error::SysError(EINVAL));
        }
        let fds = self.GetFDs();
        let mut i: usize = 0;
        while i < fds.len()
            invariant
                i <= fds.len(),
                self.wf(),
                sorted_keys_of(fds@, old(self)@),
                self@.dom() == old(self)@.dom(),
                forall|fd: i32| #[trigger] self@.contains_key(fd) ==> self@[fd] == (if startfd <= fd < endfd && exists|k: int| 0 <= k < i && fds@[k] == fd {
                    Descriptor { flags, ..old(self)@[fd] }
                } else {
                    old(self)@[fd]
                }),
            decreases fds.len() - i,
        {
            let fd = fds[i];
            assert(fds@.to_set().contains(fd));
            if startfd <= fd && fd < endfd {
                let d = *self.descTbl.get(&fd).unwrap();
                let ghost before = self@;
                self.descTbl.insert(fd, Descriptor { file: d.file, flags });
                proof {
                    self.lemma_same_domain_map(before);
                    assert forall|g: i32| #[trigger] self@.contains_key(g) implies self@[g] == (if startfd <= g < endfd && exists|k: int| 0 <= k < i + 1 && fds@[k] == g {
                        Descriptor { flags, ..old(self)@[g] }
                    } else {
                        old(self)@[g]
                    }) by {
                        if g == fd {
                            assert(fds@[i as int] == g);
                        } else if exists|k: int| 0 <= k < i + 1 && fds@[k] == g {
                            let k = choose|k: int| 0 <= k < i + 1 && fds@[k] == g;
                            assert(k < i);
                        }
                    }
                }
            } else {
                proof {
                    assert forall|g: i32| #[trigger] self@.contains_key(g) implies self@[g] == (if startfd <= g < endfd && exists|k: int| 0 <= k < i + 1 && fds@[k] == g {
                        Descriptor { flags, ..old(self)@[g] }
                    } else {
                        old(self)@[g]
                    }) by {
                        if exists|k: int| 0 <= k < i + 1 && fds@[k] == g {
                            let k = choose|k: int| 0 <= k < i + 1 && fds@[k] == g;
                            if k == i {
                                assert(g == fd);
                            }
                        }
                    }
                }
            }
            i = i + 1;
        }
        proof {
            assert forall|fd: i32| #[trigger] self@.contains_key(fd) implies exists|k: int| 0 <= k < fds.len() && fds@[k] == fd by {
                assert(fds@.to_set().contains(fd));
            }
        }
        Ok(())
    }

    proof fn lemma_same_domain(&self, before: &FDTableInternal)
        requires
            before.wf(),
            self.gaps == before.gaps,
            self@.dom() =~= before@.dom(),
        ensures
            self.wf(),
    {
    }

    proof fn lemma_same_domain_map(&self, before: Map<i32, Descriptor>)
        requires
            self.gaps.wf(),
            self.gaps.range == (Range { start: 0, len: MAX_FD }),
            forall|fd: i32| #[trigger] before.contains_key(fd) ==> 0 <= fd < MAX_FD,
            forall|x: int| #[trigger] self.gaps.free(x) <==> (0 <= x < MAX_FD && !before.contains_key(x as i32)),
            self@.dom() =~= before.dom(),
        ensures
            self.wf(),
    {
        assert forall|x: int| #[trigger] self.gaps.free(x) <==> (0 <= x < MAX_FD && !self@.contains_key(x as i32)) by {
            assert(self@.contains_key(x as i32) == before.contains_key(x as i32));
        }
    }

    /// Installs a descriptor at `fd`, returning the one it replaces.
    fn set(&mut self, fd: i32, file: &File, flags: &FDFlags) -> (r: Option<Descriptor>)
        requires
            old(self).gaps.wf(),
            old(self).gaps.range == (Range { start: 0, len: MAX_FD }),
            0 <= fd < MAX_FD,
            forall|g: i32| #[trigger] old(self)@.contains_key(g) ==> 0 <= g < MAX_FD,
            forall|x: int| #[trigger] old(self).gaps.free(x) <==> (0 <= x < MAX_FD && x != fd && !old(self)@.contains_key(x as i32)),
        ensures
            final(self).wf(),
            final(self).gaps == old(self).gaps,
            final(self)@ == old(self)@.insert(fd, Descriptor { file: *file, flags: *flags }),
            r == (if old(self)@.contains_key(fd) { Some(old(self)@[fd]) } else { None::<Descriptor> }),
    {
        let r = self.descTbl.insert(fd, Descriptor { file: *file, flags: *flags });
        proof {
            assert forall|x: int| #[trigger] self.gaps.free(x) <==> (0 <= x < MAX_FD && !self@.contains_key(x as i32)) by {
                if x == fd as int {
                    assert(self@.contains_key(fd));
                } else if 0 <= x < MAX_FD {
                    assert(self@.contains_key(x as i32) == old(self)@.contains_key(x as i32));
                }
            }
            assert forall|g: i32| #[trigger] self.descTbl@.contains_key(g) implies 0 <= g < MAX_FD by {
                if g != fd {
                    assert(old(self)@.contains_key(g));
                }
            }
        }
        r
    }

    /// Installs a descriptor at `fd`, replacing any descriptor there.
    pub fn NewFDAt(&mut self, fd: i32, file: &File, flags: &FDFlags) -> (r: Option<File>)
        requires
            old(self).wf(),
            0 <= fd < MAX_FD,
        ensures
            final(self).wf(),
            final(self)@ == old(self)@.insert(fd, Descriptor { file: *file, flags: *flags }),
            r == (if old(self)@.contains_key(fd) { Some(old(self)@[fd].file) } else { None::<File> }),
    {
        match self.descTbl.remove(&fd) {
            None => {
                assert(self.gaps.free(fd as int));
                self.gaps.Take(fd as u64);
                let _ = self.set(fd, file, flags);
                None
            },
            Some(d) => {
                let _ = self.set(fd, file, flags);
                assert(self@ =~= old(self)@.insert(fd, Descriptor { file: *file, flags: *flags }));
                Some(d.file)
            },
        }
    }

    /// Removes descriptor `fd` and frees its number; its file is returned.
    pub fn Remove(&mut self, fd: i32) -> (r: Option<File>)
        requires
            old(self).wf(),
        ensures
            final(self).wf(),
            final(self)@ == old(self)@.remove(fd),
            r == (if old(self)@.contains_key(fd) { Some(old(self)@[fd].file) } else { None::<File> }),
    {
        if fd < 0 {
            assert(old(self)@.remove(fd) =~= old(self)@);
            return None;
        }
        match self.descTbl.remove(&fd) {
            None => {
                assert(old(self)@.remove(fd) =~= old(self)@);
                None
            },
            Some(d) => {
                assert(!self.gaps.free(fd as int));
                self.gaps.Free(fd as u64);
                proof {
                    assert forall|x: int| #[trigger] self.gaps.free(x) <==> (0 <= x < MAX_FD && !self@.contains_key(x as i32)) by {
                        if x != fd as int && 0 <= x < MAX_FD {
                            assert(self@.contains_key(x as i32) == old(self)@.contains_key(x as i32));
                        }
                    }
                }
                Some(d.file)
            },
        }
    }

    /// Removes the descriptors listed in `fds` (all of them in the table,
    /// each once) and returns their files in that order.
    fn remove_listed(&mut self, fds: &Vec<i32>) -> (r: Vec<File>)
        requires
            old(self).wf(),
            fds@.no_duplicates(),
            forall|i: int| 0 <= i < fds.len() ==> old(self)@.contains_key(#[trigger] fds@[i]),
        ensures
            final(self).wf(),
            final(self)@ == old(self)@.remove_keys(fds@.to_set()),
            r.len() == fds.len(),
            forall|i: int| 0 <= i < fds.len() ==> r@[i] == #[trigger] old(self)@[fds@[i]].file,
    {
        let mut r: Vec<File> = Vec::new();
        let mut i: usize = 0;
        while i < fds.len()
            invariant
                i <= fds.len(),
                self.wf(),
                fds@.no_duplicates(),
                forall|k: int| 0 <= k < fds.len() ==> old(self)@.contains_key(#[trigger] fds@[k]),
                self@ == old(self)@.remove_keys(fds@.take(i as int).to_set()),
                r.len() == i,
                forall|k: int| 0 <= k < i ==> r@[k] == #[trigger] old(self)@[fds@[k]].file,
            decreases fds.len() - i,
        {
            let fd = fds[i];
            proof {
                assert(!fds@.take(i as int).contains(fd));
                assert(!fds@.take(i as int).to_set().contains(fd));
                assert(self@.contains_key(fd));
            }
            let f = self.Remove(fd);
            r.push(f.unwrap());
            proof {
                assert(fds@.take(i + 1) == fds@.take(i as int).push(fd));
                fds@.take(i as int).lemma_push_to_set_commute(fd);
                assert(self@ =~= old(self)@.remove_keys(fds@.take(i + 1).to_set()));
            }
            i = i + 1;
        }
        assert(fds@.take(fds.len() as int) == fds@);
        r
    }

    /// Removes the descriptors in `[startfd, endfd)` and returns their files
    /// in increasing order of number.
    pub fn RemoveRange(&mut self, startfd: i32, endfd: i32) -> (r: Vec<File>)
        requires
            old(self).wf(),
        ensures
            final(self).wf(),
            final(self)@ == old(self)@.remove_keys(Set::new(|fd: i32| startfd <= fd < endfd)),
            exists|ks: Seq<i32>|
                #![trigger ks.to_set()]
                ks.to_set() == old(self)@.dom().filter(|fd: i32| startfd <= fd < endfd) && (forall|i: int, j: int| 0 <= i < j < ks.len() ==> ks[i] < ks[j]) && ks.len() == r@.len() && forall|i: int|
                    0 <= i < ks.len() ==> r@[i] == #[trigger] old(self)@[ks[i]].file,
    {
        let all = self.GetFDs();
        let mut ids: Vec<i32> = Vec::new();
        let mut i: usize = 0;
        while i < all.len()
            invariant
                i <= all.len(),
                sorted_keys_of(all@, old(self)@),
                self@ == old(self)@,
                forall|a: int, b: int| 0 <= a < b < ids.len() ==> ids@[a] < ids@[b],
                forall|a: int| 0 <= a < ids.len() ==> startfd <= #[trigger] ids@[a] < endfd,
                ids@.to_set() == all@.take(i as int).to_set().filter(|fd: i32| startfd <= fd < endfd),
                forall|a: int| 0 <= a < ids.len() ==> exists|b: int| 0 <= b < i && all@[b] == #[trigger] ids@[a],
            decreases all.len() - i,
        {
            let fd = all[i];
            let ghost before = ids@;
            if startfd <= fd && fd < endfd {
                ids.push(fd);
                proof {
                    assert forall|a: int, b: int| 0 <= a < b < ids.len() implies ids@[a] < ids@[b] by {
                        if b == ids.len() - 1 && a < b {
                            let c = choose|c: int| 0 <= c < i && all@[c] == #[trigger] ids@[a];
                            assert(all@[c] < all@[i as int]);
                        }
                    }
                    assert forall|a: int| 0 <= a < ids.len() implies exists|b: int| 0 <= b < i + 1 && all@[b] == #[trigger] ids@[a] by {
                        if a == ids.len() - 1 {
                            assert(all@[i as int] == ids@[a]);
                        } else {
                            assert(ids@[a] == before[a]);
                        }
                    }
                }
            }
            proof {
                assert(all@.take(i + 1) == all@.take(i as int).push(fd));
                all@.take(i as int).lemma_push_to_set_commute(fd);
                if startfd <= fd < endfd {
                    before.lemma_push_to_set_commute(fd);
                }
                assert(ids@.to_set() =~= all@.take(i + 1).to_set().filter(|g: i32| startfd <= g < endfd));
            }
            i = i + 1;
        }
        assert(all@.take(all.len() as int) == all@);
        proof {
            assert(ids@.no_duplicates()) by {
                assert forall|a: int, b: int| 0 <= a < ids.len() && 0 <= b < ids.len() && a != b implies ids@[a] != ids@[b] by {
                    if a < b {
                        assert(ids@[a] < ids@[b]);
                    } else {
                        assert(ids@[b] < ids@[a]);
                    }
                }
            }
            assert forall|k: int| 0 <= k < ids.len() implies old(self)@.contains_key(#[trigger] ids@[k]) by {
                assert(ids@.to_set().contains(ids@[k]));
            }
        }
        let r = self.remove_listed(&ids);
        proof {
            assert(ids@.to_set() =~= old(self)@.dom().filter(|fd: i32| startfd <= fd < endfd));
            assert(old(self)@.remove_keys(ids@.to_set()) =~= old(self)@.remove_keys(Set::new(|fd: i32| startfd <= fd < endfd)));
            assert(ids@.to_set() == old(self)@.dom().filter(|fd: i32| startfd <= fd < endfd));
        }
        r
    }

    /// Removes every close-on-exec descriptor and returns their files, so that
    /// the caller can send each one's close event (see `Drop`).
    pub fn RemoveCloseOnExec(&mut self) -> (r: Vec<File>)
        requires
            old(self).wf(),
        ensures
            final(self).wf(),
            final(self)@ == old(self)@.restrict(old(self)@.dom().filter(|fd: i32| !old(self)@[fd].flags.CloseOnExec)),
            exists|ks: Seq<i32>|
                #![trigger ks.to_set()]
                ks.to_set() == old(self)@.dom().filter(|fd: i32| old(self)@[fd].flags.CloseOnExec)
                    && ks.no_duplicates() && ks.len() == r@.len() && forall|i: int|
                    0 <= i < ks.len() ==> r@[i] == #[trigger] old(self)@[ks[i]].file,
    {
        let all = self.GetFDs();
        let mut ids: Vec<i32> = Vec::new();
        let mut i: usize = 0;
        while i < all.len()
            invariant
                i <= all.len(),
                sorted_keys_of(all@, old(self)@),
                self@ == old(self)@,
                ids@.no_duplicates(),
                ids@.to_set() == all@.take(i as int).to_set().filter(|fd: i32| old(self)@[fd].flags.CloseOnExec),
                forall|a: int| 0 <= a < ids.len() ==> exists|b: int| 0 <= b < i && all@[b] == #[trigger] ids@[a],
            decreases all.len() - i,
        {
            let fd = all[i];
            assert(all@.to_set().contains(fd));
            let d = *self.descTbl.get(&fd).unwrap();
            let ghost before = ids@;
            if d.flags.CloseOnExec {
                proof {
                    assert(!before.contains(fd)) by {
                        if before.contains(fd) {
                            let a = choose|a: int| 0 <= a < before.len() && before[a] == fd;
                            let b = choose|b: int| 0 <= b < i && all@[b] == #[trigger] before[a];
                            assert(all@[b] < all@[i as int]);
                        }
                    }
                }
                ids.push(fd);
                proof {
                    assert forall|a: int| 0 <= a < ids.len() implies exists|b: int| 0 <= b < i + 1 && all@[b] == #[trigger] ids@[a] by {
                        if a == ids.len() - 1 {
                            assert(all@[i as int] == ids@[a]);
                        } else {
                            assert(ids@[a] == before[a]);
                        }
                    }
                }
            }
            proof {
                assert(all@.take(i + 1) == all@.take(i as int).push(fd));
                all@.take(i as int).lemma_push_to_set_commute(fd);
                if d.flags.CloseOnExec {
                    before.lemma_push_to_set_commute(fd);
                }
                assert(ids@.to_set() =~= all@.take(i + 1).to_set().filter(|g: i32| old(self)@[g].flags.CloseOnExec));
            }
            i = i + 1;
        }
        assert(all@.take(all.len() as int) == all@);
        proof {
            assert forall|k: int| 0 <= k < ids.len() implies old(self)@.contains_key(#[trigger] ids@[k]) by {
                assert(ids@.to_set().contains(ids@[k]));
            }
        }
        let removed = self.remove_listed(&ids);
        assert(self@ =~= old(self)@.restrict(old(self)@.dom().filter(|fd: i32| !old(self)@[fd].flags.CloseOnExec)));
        assert(ids@.to_set() =~= old(self)@.dom().filter(|fd: i32| old(self)@[fd].flags.CloseOnExec));
        removed
    }

    /// Removes every descriptor.
    pub fn RemoveAll(&mut self)
        requires
            old(self).wf(),
        ensures
            final(self).wf(),
            final(self)@ == Map::<i32, Descriptor>::empty(),
    {
        let all = self.GetFDs();
        proof {
            assert(all@.no_duplicates()) by {
                assert forall|a: int, b: int| 0 <= a < all.len() && 0 <= b < all.len() && a != b implies all@[a] != all@[b] by {
                    if a < b {
                        assert(all@[a] < all@[b]);
                    } else {
                        assert(all@[b] < all@[a]);
                    }
                }
            }
            assert forall|k: int| 0 <= k < all.len() implies old(self)@.contains_key(#[trigger] all@[k]) by {
                assert(all@.to_set().contains(all@[k]));
            }
        }
        let _ = self.remove_listed(&all);
        assert(self@ =~= Map::<i32, Descriptor>::empty());
    }

    /// An independent table with the descriptors numbered below `maxFds`.
    pub fn Fork(&self, maxFds: i32) -> (r: FDTableInternal)
        requires
            self.wf(),
        ensures
            r.wf(),
            r@ == self@.restrict(Set::new(|fd: i32| fd < maxFds)),
    {
        let mut tbl = FDTableInternal { gaps: self.gaps.Fork(), descTbl: self.descTbl.clone() };
        assert(tbl.wf());
        let all = self.GetFDs();
        let mut ids: Vec<i32> = Vec::new();
        let mut i: usize = 0;
        while i < all.len()
            invariant
                i <= all.len(),
                sorted_keys_of(all@, self@),
                ids@.no_duplicates(),
                ids@.to_set() == all@.take(i as int).to_set().filter(|fd: i32| fd >= maxFds),
                forall|a: int| 0 <= a < ids.len() ==> exists|b: int| 0 <= b < i && all@[b] == #[trigger] ids@[a],
            decreases all.len() - i,
        {
            let fd = all[i];
            let ghost before = ids@;
            if fd >= maxFds {
                proof {
                    assert(!before.contains(fd)) by {
                        if before.contains(fd) {
                            let a = choose|a: int| 0 <= a < before.len() && before[a] == fd;
                            let b = choose|b: int| 0 <= b < i && all@[b] == #[trigger] before[a];
                            assert(all@[b] < all@[i as int]);
                        }
                    }
                }
                ids.push(fd);
                proof {
                    assert forall|a: int| 0 <= a < ids.len() implies exists|b: int| 0 <= b < i + 1 && all@[b] == #[trigger] ids@[a] by {
                        if a == ids.len() - 1 {
                            assert(all@[i as int] == ids@[a]);
                        } else {
                            assert(ids@[a] == before[a]);
                        }
                    }
                }
            }
            proof {
                assert(all@.take(i + 1) == all@.take(i as int).push(fd));
                all@.take(i as int).lemma_push_to_set_commute(fd);
                if fd >= maxFds {
                    before.lemma_push_to_set_commute(fd);
                }
                assert(ids@.to_set() =~= all@.take(i + 1).to_set().filter(|g: i32| g >= maxFds));
            }
            i = i + 1;
        }
        assert(all@.take(all.len() as int) == all@);
        proof {
            assert forall|k: int| 0 <= k < ids.len() implies tbl@.contains_key(#[trigger] ids@[k]) by {
                assert(ids@.to_set().contains(ids@[k]));
            }
        }
        let _ = tbl.remove_listed(&ids);
        assert(tbl@ =~= self@.restrict(Set::new(|fd: i32| fd < maxFds)));
        tbl
    }

    /// The inotify event to send when a descriptor of `file` closes: one only
    /// when it was the file's last reference.
    pub fn Drop(&self, file: &File, last_ref: bool) -> (r: Option<u32>)
        ensures
            r == (if last_ref { Some(close_event(*file)) } else { None::<u32> }),
    {
        if !last_ref {
            return None;
        }
        let dir = if file.is_dir { IN_ISDIR } else { 0 };
        let close = if file.writable { IN_CLOSE_WRITE } else { IN_CLOSE_NOWRITE };
        Some(dir | close)
    }
}

/// The highest descriptor number plus one that a limit on open files allows.
pub open spec fn fd_end(lim: u64) -> int {
    if lim >= MAX_FD { MAX_FD as int } else { lim as int }
}

/// A descriptor table with its unique id.
pub struct FDTable {
    pub internal: FDTableInternal,
    pub uid: u64,
}

impl FDTable {
    pub open spec fn wf(&self) -> bool {
        self.internal.wf()
    }

    pub open spec fn view(&self) -> Map<i32, Descriptor> {
        self.internal@
    }

    pub fn New(uid: u64) -> (r: FDTable)
        ensures
            r.wf(),
            r@ == Map::<i32, Descriptor>::empty(),
            r.uid == uid,
    {
        FDTable { internal: FDTableInternal::New(), uid }
    }

    pub fn ID(&self) -> (r: u64)
        ensures
            r == self.uid,
    {
        self.uid
    }

    /// Installs `file` at the lowest unused number that is at least `fd` and
    /// below the open-files limit `lim`: `EINVAL` for a negative `fd`, `EMFILE`
    /// when there is no such number.
    pub fn NewFDFrom(&mut self, fd: i32, file: &File, flags: &FDFlags, lim: u64) -> (r: Result<i32, Error>)
        requires
            old(self).wf(),
        ensures
            final(self).wf(),
            final(self).uid == old(self).uid,
            fd < 0 ==> r == Err::<i32, Error>(Error::SysError(EINVAL)),
            fd >= 0 && r is Err ==> r == Err::<i32, Error>(Error::SysError(EMFILE)) && forall|x: i32|
                fd <= x < fd_end(lim) ==> #[trigger] old(self)@.contains_key(x),
            r is Err ==> final(self)@ == old(self)@,
            r matches Ok(n) ==> {
                &&& fd <= n < fd_end(lim)
                &&& !old(self)@.contains_key(n)
                &&& forall|x: i32| fd <= x < n ==> #[trigger] old(self)@.contains_key(x)
                &&& final(self)@ == old(self)@.insert(n, Descriptor { file: *file, flags: *flags })
            },
    {
        if fd < 0 {
            return Err(Error::SysError(EINVAL));
        }
        let end: u64 = if lim >= MAX_FD { MAX_FD } else { lim };
        if fd as u64 + 1 > end {
            return Err(Error::SysError(EMFILE));
        }
        let tbl = &mut self.internal;
        let ghost before = *tbl;
        match tbl.gaps.AllocAfter(fd as u64) {
            None => {
                proof {
                    assert forall|x: int| #[trigger] tbl.gaps.free(x) <==> before.gaps.free(x) by {}
                    assert forall|x: i32| fd <= x < fd_end(lim) implies #[trigger] old(self)@.contains_key(x) by {
                        assert(!before.gaps.free(x as int));
                    }
                }
                Err(Error::SysError(EMFILE))
            },
            Some(newfd) => {
                assert(before.gaps.free(newfd as int));
                if newfd >= end {
                    assert(!tbl.gaps.free(newfd as int));
                    tbl.gaps.Free(newfd);
                    proof {
                        assert forall|x: int| #[trigger] tbl.gaps.free(x) <==> before.gaps.free(x) by {}
                        assert forall|x: i32| fd <= x < fd_end(lim) implies #[trigger] old(self)@.contains_key(x) by {
                            assert(!before.gaps.free(x as int));
                        }
                    }
                    return Err(Error::SysError(EMFILE));
                }
                let n = newfd as i32;
                proof {
                    assert forall|x: i32| fd <= x < n implies #[trigger] old(self)@.contains_key(x) by {
                        assert(!before.gaps.free(x as int));
                    }
                }
                let _ = tbl.set(n, file, flags);
                Ok(n)
            },
        }
    }

    /// Installs `file` at number `fd`, replacing any descriptor there:
    /// `EBADF` for a negative `fd`, `EMFILE` at or past the limit `lim` or the
    /// table's range.
    pub fn NewFDAt(&mut self, fd: i32, file: &File, flags: &FDFlags, lim: u64) -> (r: Result<(), Error>)
        requires
            old(self).wf(),
        ensures
            final(self).wf(),
            final(self).uid == old(self).uid,
            fd < 0 ==> r == Err::<(), Error>(Error::SysError(EBADF)),
            fd >= 0 && fd >= fd_end(lim) ==> r == Err::<(), Error>(Error::SysError(EMFILE)),
            r is Ok <==> 0 <= fd < fd_end(lim),
            r is Err ==> final(self)@ == old(self)@,
            r is Ok ==> final(self)@ == old(self)@.insert(fd, Descriptor { file: *file, flags: *flags }),
    {
        if fd < 0 {
            return Err(Error::SysError(EBADF));
        }
        if fd as u64 >= lim || fd as u64 >= MAX_FD {
            return Err(Error::SysError(EMFILE));
        }
        let _ = self.internal.NewFDAt(fd, file, flags);
        Ok(())
    }

    /// A new descriptor for the file of `fd`, at the lowest unused number.
    pub fn Dup(&mut self, fd: i32, lim: u64) -> (r: Result<i32, Error>)
        requires
            old(self).wf(),
        ensures
            final(self).wf(),
            (fd < 0 || !old(self)@.contains_key(fd)) ==> r == Err::<i32, Error>(Error::SysError(EBADF)) && final(self)@ == old(self)@,
            r is Err && r != Err::<i32, Error>(Error::SysError(EBADF)) ==> r == Err::<i32, Error>(Error::SysError(EMFILE))
                && final(self)@ == old(self)@ && forall|x: i32| 0 <= x < fd_end(lim) ==> #[trigger] old(self)@.contains_key(x),
            r matches Ok(n) ==> {
                &&& 0 <= n < fd_end(lim)
                &&& !old(self)@.contains_key(n)
                &&& forall|x: i32| 0 <= x < n ==> #[trigger] old(self)@.contains_key(x)
                &&& final(self)@ == old(self)@.insert(n, old(self)@[fd])
            },
    {
        if fd < 0 {
            return Err(Error::SysError(EBADF));
        }
        let (f, flags) = match self.internal.Get(fd) {
            Ok(v) => v,
            Err(e) => return Err(e),
        };
        self.NewFDFrom(0, &f, &flags, lim)
    }

    /// Makes `newfd` a copy of `oldfd`: `EBADF` for a negative number or an
    /// unused `oldfd`; `EMFILE` when `newfd` is past the limit.
    pub fn Dup2(&mut self, oldfd: i32, newfd: i32, lim: u64) -> (r: Result<i32, Error>)
        requires
            old(self).wf(),
        ensures
            final(self).wf(),
            (oldfd < 0 || newfd < 0 || !old(self)@.contains_key(oldfd)) ==> r == Err::<i32, Error>(Error::SysError(EBADF)),
            oldfd >= 0 && newfd >= 0 && old(self)@.contains_key(oldfd) && newfd >= fd_end(lim) ==> r == Err::<i32, Error>(Error::SysError(EMFILE)),
            r is Ok <==> oldfd >= 0 && old(self)@.contains_key(oldfd) && 0 <= newfd < fd_end(lim),
            r is Err ==> final(self)@ == old(self)@,
            r is Ok ==> r == Ok::<i32, Error>(newfd) && final(self)@ == old(self)@.insert(newfd, old(self)@[oldfd]),
    {
        if oldfd < 0 {
            return Err(Error::SysError(EBADF));
        }
        if newfd < 0 {
            return Err(Error::SysError(EBADF));
        }
        let (f, flags) = match self.internal.Get(oldfd) {
            Ok(v) => v,
            Err(e) => return Err(e),
        };
        match self.NewFDAt(newfd, &f, &flags, lim) {
            Ok(()) => Ok(newfd),
            Err(e) => Err(e),
        }
    }

    /// Like `Dup2`, with the close-on-exec flag of `newfd` taken from `flags`.
    pub fn Dup3(&mut self, oldfd: i32, newfd: i32, flags: i32, lim: u64) -> (r: Result<i32, Error>)
        requires
            old(self).wf(),
        ensures
            final(self).wf(),
            (oldfd < 0 || newfd < 0 || !old(self)@.contains_key(oldfd)) ==> r == Err::<i32, Error>(Error::SysError(EBADF)),
            oldfd >= 0 && newfd >= 0 && old(self)@.contains_key(oldfd) && newfd >= fd_end(lim) ==> r == Err::<i32, Error>(Error::SysError(EMFILE)),
            r is Ok <==> oldfd >= 0 && old(self)@.contains_key(oldfd) && 0 <= newfd < fd_end(lim),
            r is Err ==> final(self)@ == old(self)@,
            r is Ok ==> r == Ok::<i32, Error>(newfd) && final(self)@ == old(self)@.insert(
                newfd,
                Descriptor { file: old(self)@[oldfd].file, flags: FDFlags { CloseOnExec: flags & O_CLOEXEC != 0 } },
            ),
    {
        if oldfd < 0 {
            return Err(Error::SysError(EBADF));
        }
        if newfd < 0 {
            return Err(Error::SysError(EBADF));
        }
        let close_on_exec = flags & O_CLOEXEC != 0;
        let (f, mut fl) = match self.internal.Get(oldfd) {
            Ok(v) => v,
            Err(e) => return Err(e),
        };
        fl.CloseOnExec = close_on_exec;
        match self.NewFDAt(newfd, &f, &fl, lim) {
            Ok(()) => Ok(newfd),
            Err(e) => Err(e),
        }
    }

    /// An independent table, with a fresh id, holding the descriptors numbered
    /// below `maxFds`. This table's id was taken from `uids` before.
    pub fn Fork(&self, maxFds: i32, uids: &mut UidGen) -> (r: FDTable)
        requires
            self.wf(),
            old(uids).next < u64::MAX,
            self.uid < old(uids).next,
        ensures
            r.wf(),
            r@ == self@.restrict(Set::new(|fd: i32| fd < maxFds)),
            r.uid == old(uids).next,
            r.uid != self.uid,
            final(uids).next == old(uids).next + 1,
    {
        let internal = self.internal.Fork(maxFds);
        FDTable { internal, uid: NewUID(uids) }
    }

    /// Removes every descriptor.
    pub fn Clear(&mut self)
        requires
            old(self).wf(),
        ensures
            final(self).wf(),
            final(self)@ == Map::<i32, Descriptor>::empty(),
            final(self).uid == old(self).uid,
    {
        self.internal.RemoveAll();
    }

    /// The number of descriptors.
    pub fn Count(&self) -> (r: usize)
        ensures
            r == self@.len(),
    {
        self.internal.Size()
    }
}

} // verus!
