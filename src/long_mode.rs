use vstd::prelude::*;

verus! {

// Flag bits of the high word of a segment descriptor.
pub const SEGMENT_DESCRIPTOR_ACCESS: u32 = 1 << 8;
pub const SEGMENT_DESCRIPTOR_WRITE: u32 = 1 << 9;
pub const SEGMENT_DESCRIPTOR_EXECUTE: u32 = 1 << 11;
pub const SEGMENT_DESCRIPTOR_SYSTEM: u32 = 1 << 12;
pub const SEGMENT_DESCRIPTOR_PRESENT: u32 = 1 << 15;
pub const SEGMENT_DESCRIPTOR_AVL: u32 = 1 << 20;
pub const SEGMENT_DESCRIPTOR_LONG: u32 = 1 << 21;
pub const SEGMENT_DESCRIPTOR_DB: u32 = 1 << 22;
pub const SEGMENT_DESCRIPTOR_G: u32 = 1 << 23;

// Selectors of the GDT entries.
pub const KCODE: u16 = 1 << 3;
pub const KDATA: u16 = 2 << 3;
pub const UDATA: u16 = (3 << 3) | 3;
pub const UCODE64: u16 = (4 << 3) | 3;
pub const TSS: u16 = 5 << 3;

// Control register and EFER bits.
pub const CR0_PE: u64 = 1 << 0;
pub const CR0_ET: u64 = 1 << 4;
pub const CR0_WP: u64 = 1 << 16;
pub const CR0_AM: u64 = 1 << 18;
pub const CR0_PG: u64 = 1 << 31;
pub const CR4_PAE: u64 = 1 << 5;
pub const CR4_PGE: u64 = 1 << 7;
pub const CR4_OSFXSR: u64 = 1 << 9;
pub const CR4_OSXMMEXCPT: u64 = 1 << 10;
pub const CR4_FSGSBASE: u64 = 1 << 16;
pub const EFER_SCE: u64 = 1 << 0;
pub const EFER_LME: u64 = 1 << 8;
pub const EFER_LMA: u64 = 1 << 10;
pub const EFER_NX: u64 = 1 << 11;

/// The reserved bit of RFLAGS that is always set.
pub const KERNEL_FLAGS_SET: u64 = 1 << 1;

pub const PAGE_SIZE: u64 = 4096;
/// The pages of each vCPU's private stack.
pub const DEFAULT_STACK_PAGES: u64 = 16;
/// The pages of the interrupt stack the TSS points at.
pub const INTERRUPT_STACK_PAGES: u64 = 1;
/// The limit of the GDT and of the IDT: one page.
pub const TABLE_LIMIT: u16 = 4095;

/// An x86-64 segment descriptor, as its low and high 32-bit words.
#[derive(Clone, Copy, Debug, PartialEq, Eq, Structural)]
pub struct SegmentDescriptor {
    pub lo: u32,
    pub hi: u32,
}

/// The low word of a descriptor: the low 16 bits of the base and of the limit.
pub open spec fn desc_lo(base: u32, limit: u32) -> u32 {
    (base << 16u32) | (limit & 0xFFFFu32)
}

/// The high word: the rest of the base and the limit, the flags and the privilege level.
pub open spec fn desc_hi(base: u32, limit: u32, dpl: u32, flags: u32) -> u32 {
    (base & 0xFF000000u32) | ((base >> 16u32) & 0xFFu32) | (limit & 0x000F0000u32) | flags | (dpl
        << 13u32)
}

/// A descriptor as `set` builds it: present, and with page granularity when
/// the limit does not fit in 20 bits (the limit is then counted in pages).
pub open spec fn desc_set(base: u32, limit: u32, dpl: u32, flags: u32) -> SegmentDescriptor {
    if limit >> 12u32 != 0 {
        SegmentDescriptor {
            lo: desc_lo(base, limit >> 12u32),
            hi: desc_hi(base, limit >> 12u32, dpl, flags | SEGMENT_DESCRIPTOR_PRESENT | SEGMENT_DESCRIPTOR_G),
        }
    } else {
        SegmentDescriptor {
            lo: desc_lo(base, limit),
            hi: desc_hi(base, limit, dpl, flags | SEGMENT_DESCRIPTOR_PRESENT),
        }
    }
}

/// A segment register as the hypervisor loads it.
#[derive(Clone, Copy, Debug, PartialEq, Eq, Structural)]
pub struct KvmSegment {
    pub base: u64,
    pub limit: u32,
    pub selector: u16,
    pub type_: u8,
    pub present: u8,
    pub dpl: u8,
    pub db: u8,
    pub s: u8,
    pub l: u8,
    pub g: u8,
    pub avl: u8,
    pub unusable: u8,
}

impl SegmentDescriptor {
    pub fn New(v: u64) -> (r: SegmentDescriptor)
        ensures
            r.lo == v as u32,
            r.hi == (v >> 32u64) as u32,
    {
        SegmentDescriptor { lo: v as u32, hi: (v >> 32) as u32 }
    }

    pub fn default() -> (r: SegmentDescriptor)
        ensures
            r.lo == 0 && r.hi == 0,
    {
        SegmentDescriptor { lo: 0, hi: 0 }
    }

    pub fn SetSegment(&self, base: u32, limit: u32, dpl: u32, flags: u32) -> (r: SegmentDescriptor)
        ensures
            r == desc_set(base, limit, dpl, flags),
    {
        let mut flags = flags | SEGMENT_DESCRIPTOR_PRESENT;
        let mut limit = limit;
        if limit >> 12 != 0 {
            limit = limit >> 12;
            flags = flags | SEGMENT_DESCRIPTOR_G;
        }
        SegmentDescriptor {
            lo: (base << 16) | (limit & 0xFFFF),
            hi: (base & 0xFF000000) | ((base >> 16) & 0xFF) | (limit & 0x000F0000) | flags | (dpl
                << 13),
        }
    }

    /// A 64-bit code segment.
    pub fn SetCode64(&self, base: u32, limit: u32, dpl: u32) -> (r: SegmentDescriptor)
        ensures
            r == desc_set(
                base,
                limit,
                dpl,
                SEGMENT_DESCRIPTOR_G | SEGMENT_DESCRIPTOR_LONG | SEGMENT_DESCRIPTOR_EXECUTE
                    | SEGMENT_DESCRIPTOR_SYSTEM,
            ),
    {
        self.SetSegment(
            base,
            limit,
            dpl,
            SEGMENT_DESCRIPTOR_G | SEGMENT_DESCRIPTOR_LONG | SEGMENT_DESCRIPTOR_EXECUTE
                | SEGMENT_DESCRIPTOR_SYSTEM,
        )
    }

    /// A writable data segment.
    pub fn SetData(&self, base: u32, limit: u32, dpl: u32) -> (r: SegmentDescriptor)
        ensures
            r == desc_set(base, limit, dpl, SEGMENT_DESCRIPTOR_WRITE | SEGMENT_DESCRIPTOR_SYSTEM),
    {
        self.SetSegment(base, limit, dpl, SEGMENT_DESCRIPTOR_WRITE | SEGMENT_DESCRIPTOR_SYSTEM)
    }

    /// The upper half of a 16-byte system descriptor: the high 32 bits of the base.
    pub fn SetHi(&self, base: u32) -> (r: SegmentDescriptor)
        ensures
            r.lo == base && r.hi == 0,
    {
        SegmentDescriptor { lo: base, hi: 0 }
    }

    pub fn AsU64(&self) -> (r: u64)
        ensures
            r == (self.hi as u64) * 0x1_0000_0000 + self.lo as u64,
    {
        let hi = self.hi as u64;
        let lo = self.lo as u64;
        let r = (hi << 32) | lo;
        assert(r == hi * 0x1_0000_0000 + lo) by (bit_vector)
            requires
                r == (hi << 32) | lo,
                hi < 0x1_0000_0000,
                lo < 0x1_0000_0000,
        ;
        r
    }

    pub open spec fn base_spec(&self) -> u32 {
        (self.hi & 0xFF000000u32) | ((self.hi & 0xFFu32) << 16u32) | (self.lo >> 16u32)
    }

    pub open spec fn limit_spec(&self) -> u32 {
        let l = (self.lo & 0xFFFFu32) | (self.hi & 0xF0000u32);
        if self.hi & SEGMENT_DESCRIPTOR_G != 0 {
            (l << 12u32) | 0xFFFu32
        } else {
            l
        }
    }

    pub open spec fn flags_spec(&self) -> u32 {
        self.hi & 0x00F09F00u32
    }

    pub fn Base(&self) -> (r: u32)
        ensures
            r == self.base_spec(),
    {
        (self.hi & 0xFF000000) | ((self.hi & 0xFF) << 16) | (self.lo >> 16)
    }

    pub fn Limit(&self) -> (r: u32)
        ensures
            r == self.limit_spec(),
    {
        let l = (self.lo & 0xFFFF) | (self.hi & 0xF0000);
        if self.hi & SEGMENT_DESCRIPTOR_G != 0 {
            (l << 12) | 0xFFF
        } else {
            l
        }
    }

    pub fn Flags(&self) -> (r: u32)
        ensures
            r == self.flags_spec(),
    {
        self.hi & 0x00F09F00
    }

    /// The segment register for this descriptor under `selector`. An absent
    /// descriptor gives an unusable register; a long-mode code segment has the
    /// full limit.
    pub fn GenKvmSegment(&self, selector: u16) -> (r: KvmSegment)
        ensures
            self.flags_spec() & SEGMENT_DESCRIPTOR_PRESENT == 0 ==> r.unusable == 1 && r.present
                == 0 && r.base == 0 && r.limit == 0,
            self.flags_spec() & SEGMENT_DESCRIPTOR_PRESENT != 0 ==> {
                let f = self.flags_spec();
                &&& r.unusable == 0
                &&& r.present == 1
                &&& r.selector == selector
                &&& r.base == self.base_spec() as u64
                &&& r.type_ == (((f >> 8u32) & 0xFu32) | 1u32) as u8
                &&& r.s == ((f >> 12u32) & 1u32) as u8
                &&& r.dpl == ((self.hi >> 13u32) & 3u32) as u8
                &&& r.avl == ((f >> 20u32) & 1u32) as u8
                &&& r.l == ((f >> 21u32) & 1u32) as u8
                &&& r.db == ((f >> 22u32) & 1u32) as u8
                &&& r.g == ((f >> 23u32) & 1u32) as u8
                &&& r.limit == (if r.l != 0 {
                    0xFFFF_FFFFu32
                } else {
                    self.limit_spec()
                })
            },
    {
        let f = self.Flags();
        if f & SEGMENT_DESCRIPTOR_PRESENT == 0 {
            return KvmSegment {
                base: 0,
                limit: 0,
                selector: 0,
                type_: 0,
                present: 0,
                dpl: 0,
                db: 0,
                s: 0,
                l: 0,
                g: 0,
                avl: 0,
                unusable: 1,
            };
        }
        let l = ((f >> 21) & 1) as u8;
        KvmSegment {
            base: self.Base() as u64,
            limit: if l != 0 {
                0xFFFF_FFFF
            } else {
                self.Limit()
            },
            selector,
            type_: (((f >> 8) & 0xF) | 1) as u8,
            present: 1,
            dpl: ((self.hi >> 13) & 3) as u8,
            db: ((f >> 22) & 1) as u8,
            s: ((f >> 12) & 1) as u8,
            l,
            g: ((f >> 23) & 1) as u8,
            avl: ((f >> 20) & 1) as u8,
            unusable: 0,
        }
    }
}

/// The two GDT words of a 64-bit TSS descriptor for a TSS at `base` with
/// limit `limit`, and the limit.
pub open spec fn tss_descriptor_spec(base: u64, limit: u16) -> (u64, u64, u16) {
    let low = desc_set(
        base as u32,
        limit as u32,
        0,
        SEGMENT_DESCRIPTOR_PRESENT | SEGMENT_DESCRIPTOR_ACCESS | SEGMENT_DESCRIPTOR_WRITE
            | SEGMENT_DESCRIPTOR_EXECUTE,
    );
    (desc_u64(low), (base >> 32u64) as u32 as u64, limit)
}

/// Builds the descriptor of the TSS at `base` whose size in bytes is `size`.
pub fn TSStoDescriptor(base: u64, size: u64) -> (r: (u64, u64, u16))
    requires
        1 <= size <= 0x10000,
    ensures
        r == tss_descriptor_spec(base, (size - 1) as u16),
{
    let limit = (size - 1) as u16;
    let low = SegmentDescriptor::default().SetSegment(
        base as u32,
        limit as u32,
        0,
        SEGMENT_DESCRIPTOR_PRESENT | SEGMENT_DESCRIPTOR_ACCESS | SEGMENT_DESCRIPTOR_WRITE
            | SEGMENT_DESCRIPTOR_EXECUTE,
    );
    let hi = SegmentDescriptor::default().SetHi((base >> 32) as u32);
    (low.AsU64(), hi.AsU64(), limit)
}

/// Relies on the layout of `x86_64::structures::tss::TaskStateSegment`
/// (`repr(C, packed(4))`): a `u32`, three stack pointers, a `u64`, seven IST
/// pointers, a `u64` and two `u16`s make 104 bytes, as that crate's own test
/// of its size states.
#[verifier::external_body]
fn tss_size() -> (r: u64)
    ensures
        r == 104,
{
    core::mem::size_of::<x86_64::structures::tss::TaskStateSegment>() as u64
}

/// The limit of the TSS descriptor: the TSS's size less one.
pub const TSS_LIMIT: u16 = 103;

/// The special registers of a vCPU in 64-bit long mode.
#[derive(Clone, Copy, Debug, PartialEq, Eq, Structural)]
pub struct LongModeSregs {
    pub cr0: u64,
    pub cr3: u64,
    pub cr4: u64,
    pub efer: u64,
    pub gdt_base: u64,
    pub gdt_limit: u16,
    pub idt_base: u64,
    pub idt_limit: u16,
    pub cs: KvmSegment,
    pub ds: KvmSegment,
    pub es: KvmSegment,
    pub ss: KvmSegment,
    pub fs: KvmSegment,
    pub gs: KvmSegment,
    pub tr: KvmSegment,
}

/// The GDT of a vCPU: entries 1 to 6 (entry 0 is null).
#[derive(Clone, Copy, Debug, PartialEq, Eq, Structural)]
pub struct GdtEntries {
    pub kernel_code: u64,
    pub kernel_data: u64,
    pub user_data: u64,
    pub user_code64: u64,
    pub tss_low: u64,
    pub tss_high: u64,
}

/// The top of the interrupt stack that the TSS's first IST slot points at.
pub open spec fn interrupt_stack_end(tss_int_stack_start: u64) -> int {
    tss_int_stack_start + INTERRUPT_STACK_PAGES * PAGE_SIZE
}

/// The per-vCPU memory and entry point that long-mode setup programs.
#[derive(Clone, Copy, Debug, PartialEq, Eq, Structural)]
pub struct VcpuLayout {
    pub id: u64,
    pub vcpu_cnt: u64,
    pub top_stack_addr: u64,
    pub entry: u64,
    pub gdt_addr: u64,
    pub idt_addr: u64,
    pub tss_int_stack_start: u64,
    pub tss_addr: u64,
    pub heap_start_addr: u64,
    pub share_space_addr: u64,
    pub vdso_addr: u64,
    pub auto_start: bool,
}

/// The general registers at VM entry.
#[derive(Clone, Copy, Debug, PartialEq, Eq, Structural)]
pub struct EntryRegs {
    pub rflags: u64,
    pub rip: u64,
    pub rsp: u64,
    pub rax: u64,
    pub rbx: u64,
    pub rdi: u64,
    pub rsi: u64,
    pub rdx: u64,
    pub rcx: u64,
    pub r8: u64,
    pub r9: u64,
}

impl VcpuLayout {
    /// The layout of a vCPU whose stack starts at `stack_addr`: the stack
    /// pointer starts at its top.
    pub fn Init(
        id: u64,
        vcpu_cnt: u64,
        entry: u64,
        stack_addr: u64,
        gdt_addr: u64,
        idt_addr: u64,
        tss_int_stack_start: u64,
        tss_addr: u64,
        heap_start_addr: u64,
        share_space_addr: u64,
        vdso_addr: u64,
        auto_start: bool,
    ) -> (r: VcpuLayout)
        requires
            stack_addr + DEFAULT_STACK_PAGES * PAGE_SIZE <= u64::MAX,
        ensures
            r.top_stack_addr == stack_addr + DEFAULT_STACK_PAGES * PAGE_SIZE,
            r == (VcpuLayout { top_stack_addr: r.top_stack_addr, ..r }),
            r.id == id && r.vcpu_cnt == vcpu_cnt && r.entry == entry && r.gdt_addr == gdt_addr
                && r.idt_addr == idt_addr && r.tss_int_stack_start == tss_int_stack_start
                && r.tss_addr == tss_addr && r.heap_start_addr == heap_start_addr
                && r.share_space_addr == share_space_addr && r.vdso_addr == vdso_addr
                && r.auto_start == auto_start,
    {
        VcpuLayout {
            id,
            vcpu_cnt,
            top_stack_addr: stack_addr + DEFAULT_STACK_PAGES * PAGE_SIZE,
            entry,
            gdt_addr,
            idt_addr,
            tss_int_stack_start,
            tss_addr,
            heap_start_addr,
            share_space_addr,
            vdso_addr,
            auto_start,
        }
    }

    /// The entry register contract with the guest kernel: instruction pointer
    /// at the entry, stack at the top of the private stack, and six arguments:
    /// heap base, share-space base, vCPU id, vDSO base, vCPU count, auto-start.
    pub fn EntryRegs(&self) -> (r: EntryRegs)
        ensures
            r.rflags == KERNEL_FLAGS_SET,
            r.rip == self.entry,
            r.rsp == self.top_stack_addr,
            r.rax == 0x11,
            r.rbx == 0xdd,
            r.rdi == self.heap_start_addr,
            r.rsi == self.share_space_addr,
            r.rdx == self.id,
            r.rcx == self.vdso_addr,
            r.r8 == self.vcpu_cnt,
            r.r9 == (if self.auto_start {
                1u64
            } else {
                0u64
            }),
    {
        EntryRegs {
            rflags: KERNEL_FLAGS_SET,
            rip: self.entry,
            rsp: self.top_stack_addr,
            rax: 0x11,
            rbx: 0xdd,
            rdi: self.heap_start_addr,
            rsi: self.share_space_addr,
            rdx: self.id,
            rcx: self.vdso_addr,
            r8: self.vcpu_cnt,
            r9: if self.auto_start {
                1
            } else {
                0
            },
        }
    }

    /// The GDT entries, the segment registers and the TSS's interrupt stack
    /// top. Kernel code and data run at privilege 0, user data and code at 3;
    /// the TSS descriptor points at this vCPU's own TSS.
    pub fn SetupGDT(&self) -> (r: (GdtEntries, LongModeSregs, u64))
        requires
            interrupt_stack_end(self.tss_int_stack_start) <= u64::MAX,
        ensures
            r.0.kernel_code == desc_u64(code64_desc(0)),
            r.0.kernel_data == desc_u64(data_desc(0)),
            r.0.user_data == desc_u64(data_desc(3)),
            r.0.user_code64 == desc_u64(code64_desc(3)),
            (r.0.tss_low, r.0.tss_high, TSS_LIMIT) == tss_descriptor_spec(self.tss_addr, TSS_LIMIT),
            r.1.cs.selector == KCODE && r.1.ss.selector == KDATA,
            r.1.ds.selector == UDATA && r.1.es.selector == UDATA && r.1.fs.selector == UDATA
                && r.1.gs.selector == UDATA,
            r.1.cs.dpl == 0 && r.1.ss.dpl == 0 && r.1.ds.dpl == 3,
            r.1.tr.base == self.tss_addr,
            r.1.tr.limit == TSS_LIMIT as u32,
            r.1.tr.selector == TSS,
            r.2 == interrupt_stack_end(self.tss_int_stack_start),
    {
        let kernel_code = SegmentDescriptor::default().SetCode64(0, 0, 0);
        let kernel_data = SegmentDescriptor::default().SetData(0, 0xffffffff, 0);
        let user_data = SegmentDescriptor::default().SetData(0, 0xffffffff, 3);
        let user_code64 = SegmentDescriptor::default().SetCode64(0, 0, 3);
        let (tss_low, tss_high, limit) = TSStoDescriptor(self.tss_addr, tss_size());
        let cs = kernel_code.GenKvmSegment(KCODE);
        let ds = user_data.GenKvmSegment(UDATA);
        let ss = kernel_data.GenKvmSegment(KDATA);
        let mut tr = SegmentDescriptor::New(tss_low).GenKvmSegment(TSS);
        tr.base = self.tss_addr;
        tr.limit = limit as u32;
        tr.selector = TSS;
        proof {
            lemma_code64_dpl(0);
            lemma_data_dpl(0);
            lemma_data_dpl(3);
        }
        let entries = GdtEntries {
            kernel_code: kernel_code.AsU64(),
            kernel_data: kernel_data.AsU64(),
            user_data: user_data.AsU64(),
            user_code64: user_code64.AsU64(),
            tss_low,
            tss_high,
        };
        let sregs = LongModeSregs {
            cr0: 0,
            cr3: 0,
            cr4: 0,
            efer: 0,
            gdt_base: 0,
            gdt_limit: 0,
            idt_base: 0,
            idt_limit: 0,
            cs,
            ds,
            es: ds,
            ss,
            fs: ds,
            gs: ds,
            tr,
        };
        (entries, sregs, self.tss_int_stack_start + INTERRUPT_STACK_PAGES * PAGE_SIZE)
    }

    /// The special registers for long mode: protection, paging and
    /// write-protect in CR0; PAE, global pages, SSE save and FS/GS-base
    /// instructions in CR4; long mode, syscall and no-execute in EFER; the
    /// page-table root in CR3; the GDT at this vCPU's page; and the segments
    /// of `SetupGDT`.
    pub fn LongModeSregs(&self, page_table_root: u64) -> (r: LongModeSregs)
        requires
            interrupt_stack_end(self.tss_int_stack_start) <= u64::MAX,
        ensures
            r.cr0 == CR0_PE | CR0_AM | CR0_ET | CR0_PG | CR0_WP,
            r.cr3 == page_table_root,
            r.cr4 == CR4_PAE | CR4_PGE | CR4_OSFXSR | CR4_OSXMMEXCPT | CR4_FSGSBASE,
            r.efer == EFER_LME | EFER_LMA | EFER_SCE | EFER_NX,
            r.gdt_base == self.gdt_addr && r.gdt_limit == TABLE_LIMIT,
            r.idt_base == 0 && r.idt_limit == TABLE_LIMIT,
            r.cs.selector == KCODE && r.ss.selector == KDATA && r.ds.selector == UDATA,
            r.tr.base == self.tss_addr && r.tr.selector == TSS,
    {
        let (_, segs, _) = self.SetupGDT();
        LongModeSregs {
            cr0: CR0_PE | CR0_AM | CR0_ET | CR0_PG | CR0_WP,
            cr3: page_table_root,
            cr4: CR4_PAE | CR4_PGE | CR4_OSFXSR | CR4_OSXMMEXCPT | CR4_FSGSBASE,
            efer: EFER_LME | EFER_LMA | EFER_SCE | EFER_NX,
            gdt_base: self.gdt_addr,
            gdt_limit: TABLE_LIMIT,
            idt_base: 0,
            idt_limit: TABLE_LIMIT,
            ..segs
        }
    }
}

pub open spec fn code64_desc(dpl: u32) -> SegmentDescriptor {
    desc_set(
        0,
        0,
        dpl,
        SEGMENT_DESCRIPTOR_G | SEGMENT_DESCRIPTOR_LONG | SEGMENT_DESCRIPTOR_EXECUTE
            | SEGMENT_DESCRIPTOR_SYSTEM,
    )
}

pub open spec fn data_desc(dpl: u32) -> SegmentDescriptor {
    desc_set(0, 0xffffffff, dpl, SEGMENT_DESCRIPTOR_WRITE | SEGMENT_DESCRIPTOR_SYSTEM)
}

pub open spec fn desc_u64(d: SegmentDescriptor) -> u64 {
    (d.hi as u64 * 0x1_0000_0000 + d.lo as u64) as u64
}

proof fn lemma_hi_fields(hi: u32, limit: u32, dpl: u32, f: u32)
    requires
        dpl <= 3,
        hi == (0u32 & 0xFF000000u32) | ((0u32 >> 16u32) & 0xFFu32) | (limit & 0x000F0000u32) | f
            | (dpl << 13u32),
        f & 0x6000u32 == 0,
        f & 0x8000u32 != 0,
    ensures
        (hi >> 13u32) & 3u32 == dpl,
        hi & 0x00F09F00u32 & 0x8000u32 != 0,
{
    assert((hi >> 13u32) & 3u32 == dpl && hi & 0x00F09F00u32 & 0x8000u32 != 0) by (bit_vector)
        requires
            dpl <= 3,
            hi == (0u32 & 0xFF000000u32) | ((0u32 >> 16u32) & 0xFFu32) | (limit & 0x000F0000u32)
                | f | (dpl << 13u32),
            f & 0x6000u32 == 0,
            f & 0x8000u32 != 0,
    ;
}

proof fn lemma_code64_dpl(dpl: u32)
    requires
        dpl <= 3,
    ensures
        (code64_desc(dpl).hi >> 13u32) & 3u32 == dpl,
        code64_desc(dpl).hi & 0x00F09F00u32 & SEGMENT_DESCRIPTOR_PRESENT != 0,
{
    let f = SEGMENT_DESCRIPTOR_G | SEGMENT_DESCRIPTOR_LONG | SEGMENT_DESCRIPTOR_EXECUTE
        | SEGMENT_DESCRIPTOR_SYSTEM | SEGMENT_DESCRIPTOR_PRESENT;
    assert(0u32 >> 12u32 == 0u32) by (bit_vector);
    assert(1u32 << 15u32 == 0x8000u32) by (bit_vector);
    assert(f & 0x6000u32 == 0 && f & 0x8000u32 != 0) by (bit_vector)
        requires
            f == (1u32 << 23u32) | (1u32 << 21u32) | (1u32 << 11u32) | (1u32 << 12u32) | (1u32
                << 15u32),
    ;
    lemma_hi_fields(code64_desc(dpl).hi, 0, dpl, f);
}

proof fn lemma_data_dpl(dpl: u32)
    requires
        dpl <= 3,
    ensures
        (data_desc(dpl).hi >> 13u32) & 3u32 == dpl,
        data_desc(dpl).hi & 0x00F09F00u32 & SEGMENT_DESCRIPTOR_PRESENT != 0,
{
    let f = SEGMENT_DESCRIPTOR_WRITE | SEGMENT_DESCRIPTOR_SYSTEM | SEGMENT_DESCRIPTOR_PRESENT
        | SEGMENT_DESCRIPTOR_G;
    assert(0xffffffffu32 >> 12u32 != 0u32) by (bit_vector);
    assert(1u32 << 15u32 == 0x8000u32) by (bit_vector);
    assert(f & 0x6000u32 == 0 && f & 0x8000u32 != 0) by (bit_vector)
        requires
            f == (1u32 << 9u32) | (1u32 << 12u32) | (1u32 << 15u32) | (1u32 << 23u32),
    ;
    lemma_hi_fields(data_desc(dpl).hi, 0xffffffffu32 >> 12u32, dpl, f);
}

} // verus!
