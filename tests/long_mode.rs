use quark::long_mode::{
    SegmentDescriptor, TSStoDescriptor, VcpuLayout, CR0_PE, CR0_PG, EFER_LMA, EFER_LME, KCODE,
    KDATA, KERNEL_FLAGS_SET, TSS, UDATA,
};

fn layout() -> VcpuLayout {
    VcpuLayout::Init(2, 4, 0xffff_8000_0010_0000, 0x10_0000, 0x20_0000, 0x21_0000, 0x22_0000, 0x23_0000, 0x4000_0000, 0x5000_0000, 0x6000_0000, true)
}

#[test]
fn stack_top_is_above_the_private_stack() {
    assert_eq!(layout().top_stack_addr, 0x10_0000 + 16 * 4096);
}

#[test]
fn entry_registers_carry_the_boot_arguments() {
    let r = layout().EntryRegs();
    assert_eq!(r.rflags, KERNEL_FLAGS_SET);
    assert_eq!(r.rip, 0xffff_8000_0010_0000);
    assert_eq!(r.rsp, 0x11_0000);
    assert_eq!((r.rax, r.rbx), (0x11, 0xdd));
    assert_eq!(r.rdi, 0x4000_0000);
    assert_eq!(r.rsi, 0x5000_0000);
    assert_eq!(r.rdx, 2);
    assert_eq!(r.rcx, 0x6000_0000);
    assert_eq!(r.r8, 4);
    assert_eq!(r.r9, 1);
}

#[test]
fn gdt_descriptors() {
    let (gdt, segs, ist) = layout().SetupGDT();
    assert_eq!(gdt.kernel_code, 0x00A0_9800_0000_0000);
    assert_eq!(gdt.kernel_data, 0x008F_9200_0000_FFFF);
    assert_eq!(gdt.user_data, 0x008F_F200_0000_FFFF);
    assert_eq!(gdt.user_code64, 0x00A0_F800_0000_0000);
    assert_eq!(gdt.tss_low, 0x0000_8b23_0000_0067);
    assert_eq!(gdt.tss_high, 0);
    assert_eq!(ist, 0x22_0000 + 4096);
    assert_eq!(segs.cs.selector, KCODE);
    assert_eq!((segs.cs.type_, segs.cs.s, segs.cs.l, segs.cs.g, segs.cs.dpl), (9, 1, 1, 1, 0));
    assert_eq!(segs.cs.limit, 0xFFFF_FFFF);
    assert_eq!(segs.ss.selector, KDATA);
    assert_eq!(segs.ds.selector, UDATA);
    assert_eq!(segs.ds.dpl, 3);
    assert_eq!(segs.tr.selector, TSS);
    assert_eq!(segs.tr.base, 0x23_0000);
    assert_eq!(segs.tr.limit, 103);
}

#[test]
fn tss_descriptor_splits_the_base() {
    let (lo, hi, limit) = TSStoDescriptor(0x1234_5678_9abc_def0, 104);
    assert_eq!(lo, 0x9a00_8bbc_def0_0067);
    assert_eq!(hi, 0x1234_5678);
    assert_eq!(limit, 103);
}

#[test]
fn long_mode_registers() {
    let s = layout().LongModeSregs(0x7000);
    assert_eq!(s.cr3, 0x7000);
    assert_ne!(s.cr0 & CR0_PE, 0);
    assert_ne!(s.cr0 & CR0_PG, 0);
    assert_eq!(s.efer & (EFER_LME | EFER_LMA), EFER_LME | EFER_LMA);
    assert_eq!(s.gdt_base, 0x20_0000);
    assert_eq!(s.gdt_limit, 4095);
    assert_eq!(s.idt_limit, 4095);
}

#[test]
fn descriptor_fields_read_back() {
    let d = SegmentDescriptor::default().SetData(0x1234_5678, 0xfff, 3);
    assert_eq!(d.Base(), 0x1234_5678);
    assert_eq!(d.Limit(), 0xfff);
    let big = SegmentDescriptor::default().SetData(0, 0xffff_ffff, 0);
    assert_eq!(big.Limit(), 0xffff_ffff);
    let absent = SegmentDescriptor::New(0).GenKvmSegment(KDATA);
    assert_eq!((absent.present, absent.unusable), (0, 1));
    assert_eq!(SegmentDescriptor::New(0x0123_4567_89ab_cdef).AsU64(), 0x0123_4567_89ab_cdef);
}
