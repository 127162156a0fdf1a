use bootchain::gdt::{build_gdt, CODE_SELECTOR};
use bootchain::interrupts::{IdtDescriptor, InterruptDescriptor, Interrupts};
use bootchain::long_mode::{
    boot_plan, enter_long_mode, operation, CpuState, Operation, TransitionPlan, TransitionStep,
    ALL_LINES_MASKED, CR0_PE, CR0_PG, CR4_PAE, EFER_LME, EFER_MSR,
};
use bootchain::gdt::GDTDescriptor;

fn real_mode() -> CpuState {
    CpuState {
        cr0: 0x0000_0010,
        cr3: 0,
        cr4: 0,
        efer: 0,
        gdtr: GDTDescriptor { offset: 0, size: 0 },
        idtr: IdtDescriptor { size: 0x3FF, offset: 0 },
        cs: 0,
        pic1_mask: 0xB8,
        pic2_mask: 0x8E,
    }
}

#[test]
fn steps_in_order_reach_long_mode() {
    let gdt = build_gdt(0x6000);
    let plan = boot_plan(gdt, 0x9000);
    let mut cpu = real_mode();
    let mut step = Some(TransitionStep::first());
    let mut count = 0;
    while let Some(current) = step {
        count += 1;
        assert_eq!(current.number(), count);
        cpu = cpu.perform(operation(current, cpu, plan));
        step = current.next();
    }
    assert_eq!(count, 8);
    assert_ne!(cpu.cr0 & CR0_PE, 0);
    assert_ne!(cpu.cr0 & CR0_PG, 0);
    assert_ne!(cpu.cr4 & CR4_PAE, 0);
    assert_ne!(cpu.efer & EFER_LME, 0);
    assert_eq!(cpu.cr3, 0x9000);
    assert_eq!(cpu.gdtr, gdt.descriptor);
    assert_eq!(cpu.cs, CODE_SELECTOR);
    let segment = gdt.lookup(cpu.cs).unwrap();
    assert!(segment.flags.long);
    assert!(segment.access.executable);
    assert!(cpu.in_long_mode());
    assert_eq!(cpu, enter_long_mode(real_mode(), plan));
}

#[test]
fn transition_sets_exactly_its_bits() {
    let start = CpuState { cr0: 0x6000_0010, cr4: 0x0000_0640, efer: 0x0000_0801, ..real_mode() };
    let plan = TransitionPlan {
        idt: IdtDescriptor::null(),
        page_map_level_4: 0x0012_3000,
        gdt: GDTDescriptor { offset: 0x7000, size: 23 },
        code_selector: 0x08,
    };
    let end = enter_long_mode(start, plan);
    assert_eq!(
        end,
        CpuState {
            cr0: 0xE000_0011,
            cr3: 0x0012_3000,
            cr4: 0x0000_0660,
            efer: 0x0000_0901,
            gdtr: GDTDescriptor { offset: 0x7000, size: 23 },
            idtr: IdtDescriptor { size: 0, offset: 0 },
            cs: 0x08,
            pic1_mask: 0xFF,
            pic2_mask: 0xFF,
        }
    );
    assert!(!start.in_long_mode());
    assert!(end.in_long_mode());
}

#[test]
fn each_step_writes_what_is_documented() {
    let cpu = CpuState { cr0: 0x10, cr4: 0x40, efer: 0x1, ..real_mode() };
    let plan = TransitionPlan {
        idt: IdtDescriptor { size: 7, offset: 0x500 },
        page_map_level_4: 0x4000,
        gdt: GDTDescriptor { offset: 0x6000, size: 23 },
        code_selector: 0x08,
    };
    assert_eq!(
        operation(TransitionStep::MaskInterrupts, cpu, plan),
        Operation::MaskInterrupts { mask: 0xFF }
    );
    assert_eq!(operation(TransitionStep::LoadIdt, cpu, plan), Operation::LoadIdt(plan.idt));
    assert_eq!(operation(TransitionStep::EnablePae, cpu, plan), Operation::WriteCr4(0x60));
    assert_eq!(operation(TransitionStep::LoadPageTables, cpu, plan), Operation::WriteCr3(0x4000));
    assert_eq!(
        operation(TransitionStep::EnableLongMode, cpu, plan),
        Operation::WriteMsr { register: 0xC000_0080, value: 0x101 }
    );
    assert_eq!(
        operation(TransitionStep::EnablePaging, cpu, plan),
        Operation::WriteCr0(0x8000_0011)
    );
    assert_eq!(operation(TransitionStep::LoadGdt, cpu, plan), Operation::LoadGdt(plan.gdt));
    assert_eq!(
        operation(TransitionStep::FarJump, cpu, plan),
        Operation::FarJump { selector: 0x08 }
    );
    assert_eq!(EFER_MSR, 0xC000_0080);
    assert_eq!(EFER_LME, 1 << 8);
    assert_eq!(CR4_PAE, 1 << 5);
    assert_eq!(CR0_PE | CR0_PG, 0x8000_0001);
    assert_eq!(ALL_LINES_MASKED, 0xFF);
}

#[test]
fn operations_change_one_register_each() {
    let cpu = real_mode();
    assert_eq!(cpu.perform(Operation::WriteCr0(5)), CpuState { cr0: 5, ..cpu });
    assert_eq!(cpu.perform(Operation::WriteCr3(5)), CpuState { cr3: 5, ..cpu });
    assert_eq!(cpu.perform(Operation::WriteCr4(5)), CpuState { cr4: 5, ..cpu });
    assert_eq!(
        cpu.perform(Operation::WriteMsr { register: EFER_MSR, value: 5 }),
        CpuState { efer: 5, ..cpu }
    );
    assert_eq!(cpu.perform(Operation::WriteMsr { register: 0x10, value: 5 }), cpu);
    assert_eq!(
        cpu.perform(Operation::MaskInterrupts { mask: 0xF0 }),
        CpuState { pic1_mask: 0xF0, pic2_mask: 0xF0, ..cpu }
    );
    assert_eq!(cpu.perform(Operation::FarJump { selector: 0x10 }), CpuState { cs: 0x10, ..cpu });
}

#[test]
fn paging_alone_is_not_long_mode() {
    let cpu = CpuState { cr0: CR0_PE | CR0_PG, ..real_mode() };
    assert!(!cpu.in_long_mode());
    let cpu = CpuState { cr4: CR4_PAE, ..cpu };
    assert!(!cpu.in_long_mode());
    let cpu = CpuState { efer: EFER_LME, ..cpu };
    assert!(cpu.in_long_mode());
    let cpu = CpuState { cr0: CR0_PG, ..cpu };
    assert!(!cpu.in_long_mode());
}

#[test]
fn interrupt_descriptor_splits_the_handler_address() {
    let descriptor = InterruptDescriptor::new(0x1122_3344_5566_7788, 0x08, 1, 0x8E);
    assert_eq!(descriptor.offset1, 0x7788);
    assert_eq!(descriptor.offset2, 0x5566);
    assert_eq!(descriptor.offset3, 0x1122_3344);
    assert_eq!(descriptor.segment, 0x08);
    assert_eq!(descriptor.stack_table, 1);
    assert_eq!(descriptor.attributes, 0x8E);
    assert_eq!(descriptor.reserved, 0);
    assert_eq!(descriptor.handler(), 0x1122_3344_5566_7788);
    assert_eq!(InterruptDescriptor::null(), InterruptDescriptor::new(0, 0, 0, 0));
    assert_eq!(Interrupts::Timer.vector(), 32);
    assert_eq!(Interrupts::Keyboard.vector(), 33);
}
