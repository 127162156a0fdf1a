//! The sequence that takes the CPU from 16-bit real mode to 64-bit long
//! mode, and a model of the registers that it touches.
//!
//! The sequence has eight steps, always in this order:
//!
//! 1. mask every line of the two legacy interrupt controllers;
//! 2. load the interrupt descriptor table register;
//! 3. set the PAE bit (bit 5) of CR4;
//! 4. load the address of the top-level page table into CR3;
//! 5. set the LME bit (bit 8) of the EFER register, MSR `0xC000_0080`;
//! 6. set the PE bit (bit 0) and the PG bit (bit 31) of CR0 in one write;
//! 7. load the global descriptor table register;
//! 8. jump far, which loads the code segment selector.
//!
//! No step can fail or be skipped. [`TransitionStep`] gives the order,
//! [`operation`] computes what each step writes from what the registers
//! hold, and [`CpuState::perform`] says what a write does to the registers.
//! The caller reads the registers, performs the operation on the hardware
//! and goes on to the next step.

use vstd::prelude::*;
use crate::gdt::{decode_inverts_build, spec_code_segment, GDTDescriptor, Gdt, CODE_SELECTOR};
use crate::interrupts::IdtDescriptor;

verus! {

/// The protection-enable bit of CR0.
pub const CR0_PE: u64 = 0x0000_0001;

/// The paging bit of CR0.
pub const CR0_PG: u64 = 0x8000_0000;

/// The physical-address-extension bit of CR4.
pub const CR4_PAE: u64 = 0x0000_0020;

/// The number of the EFER model-specific register.
pub const EFER_MSR: u32 = 0xC000_0080;

/// The long-mode-enable bit of EFER.
pub const EFER_LME: u64 = 0x0000_0100;

/// The data port of the first legacy interrupt controller.
pub const PIC1_DATA_PORT: u16 = 0x21;

/// The data port of the second legacy interrupt controller.
pub const PIC2_DATA_PORT: u16 = 0xA1;

/// The interrupt mask that lets no line through.
pub const ALL_LINES_MASKED: u8 = 0xFF;

/// The registers that the transition reads and writes.
#[derive(Clone, Copy, Debug, PartialEq, Eq)]
pub struct CpuState {
    /// Control register 0.
    pub cr0: u64,
    /// Control register 3: the address of the top-level page table.
    pub cr3: u64,
    /// Control register 4.
    pub cr4: u64,
    /// The EFER model-specific register.
    pub efer: u64,
    /// The global descriptor table register.
    pub gdtr: GDTDescriptor,
    /// The interrupt descriptor table register.
    pub idtr: IdtDescriptor,
    /// The code segment selector.
    pub cs: u16,
    /// The interrupt mask of the first legacy controller.
    pub pic1_mask: u8,
    /// The interrupt mask of the second legacy controller.
    pub pic2_mask: u8,
}

/// What the transition is given: the tables to install and the selector to
/// jump with.
#[derive(Clone, Copy, Debug, PartialEq, Eq)]
pub struct TransitionPlan {
    /// The interrupt descriptor table to install; may be empty.
    pub idt: IdtDescriptor,
    /// The physical address of the top-level page table.
    pub page_map_level_4: u64,
    /// The global descriptor table to install.
    pub gdt: GDTDescriptor,
    /// The selector of the 64-bit code segment in that table.
    pub code_selector: u16,
}

/// One step of the transition.
#[derive(Clone, Copy, Debug, PartialEq, Eq)]
pub enum TransitionStep {
    MaskInterrupts,
    LoadIdt,
    EnablePae,
    LoadPageTables,
    EnableLongMode,
    EnablePaging,
    LoadGdt,
    FarJump,
}

/// One write to the hardware.
#[derive(Clone, Copy, Debug, PartialEq, Eq)]
pub enum Operation {
    /// Write `mask` to the data port of both legacy interrupt controllers.
    MaskInterrupts { mask: u8 },
    /// Load the interrupt descriptor table register.
    LoadIdt(IdtDescriptor),
    /// Write control register 4.
    WriteCr4(u64),
    /// Write control register 3.
    WriteCr3(u64),
    /// Write a model-specific register.
    WriteMsr { register: u32, value: u64 },
    /// Write control register 0.
    WriteCr0(u64),
    /// Load the global descriptor table register.
    LoadGdt(GDTDescriptor),
    /// Jump far, loading the code segment selector.
    FarJump { selector: u16 },
}

impl TransitionStep {
    /// The place of the step in the sequence, 1 to 8.
    pub open spec fn spec_number(self) -> u8 {
        match self {
            TransitionStep::MaskInterrupts => 1,
            TransitionStep::LoadIdt => 2,
            TransitionStep::EnablePae => 3,
            TransitionStep::LoadPageTables => 4,
            TransitionStep::EnableLongMode => 5,
            TransitionStep::EnablePaging => 6,
            TransitionStep::LoadGdt => 7,
            TransitionStep::FarJump => 8,
        }
    }

    /// The place of the step in the sequence, 1 to 8.
    #[verifier::when_used_as_spec(spec_number)]
    pub fn number(self) -> (r: u8)
        ensures
            r == self.spec_number(),
    {
        match self {
            TransitionStep::MaskInterrupts => 1,
            TransitionStep::LoadIdt => 2,
            TransitionStep::EnablePae => 3,
            TransitionStep::LoadPageTables => 4,
            TransitionStep::EnableLongMode => 5,
            TransitionStep::EnablePaging => 6,
            TransitionStep::LoadGdt => 7,
            TransitionStep::FarJump => 8,
        }
    }

    /// The step that opens the sequence.
    pub fn first() -> (r: TransitionStep)
        ensures
            r.spec_number() == 1,
    {
        TransitionStep::MaskInterrupts
    }

    /// The step that follows this one; none follows the far jump.
    pub fn next(self) -> (r: Option<TransitionStep>)
        ensures
            self.spec_number() < 8 ==> r is Some && r->Some_0.spec_number() == self.spec_number()
                + 1,
            self.spec_number() == 8 ==> r is None,
    {
        match self {
            TransitionStep::MaskInterrupts => Some(TransitionStep::LoadIdt),
            TransitionStep::LoadIdt => Some(TransitionStep::EnablePae),
            TransitionStep::EnablePae => Some(TransitionStep::LoadPageTables),
            TransitionStep::LoadPageTables => Some(TransitionStep::EnableLongMode),
            TransitionStep::EnableLongMode => Some(TransitionStep::EnablePaging),
            TransitionStep::EnablePaging => Some(TransitionStep::LoadGdt),
            TransitionStep::LoadGdt => Some(TransitionStep::FarJump),
            TransitionStep::FarJump => None,
        }
    }
}

/// What `step` writes, given what the registers hold: a register that the
/// step sets bits in is written with its old value and those bits.
pub open spec fn spec_operation(step: TransitionStep, cpu: CpuState, plan: TransitionPlan)
    -> Operation {
    match step {
        TransitionStep::MaskInterrupts => Operation::MaskInterrupts { mask: ALL_LINES_MASKED },
        TransitionStep::LoadIdt => Operation::LoadIdt(plan.idt),
        TransitionStep::EnablePae => Operation::WriteCr4(cpu.cr4 | CR4_PAE),
        TransitionStep::LoadPageTables => Operation::WriteCr3(plan.page_map_level_4),
        TransitionStep::EnableLongMode => Operation::WriteMsr {
            register: EFER_MSR,
            value: cpu.efer | EFER_LME,
        },
        TransitionStep::EnablePaging => Operation::WriteCr0(cpu.cr0 | CR0_PE | CR0_PG),
        TransitionStep::LoadGdt => Operation::LoadGdt(plan.gdt),
        TransitionStep::FarJump => Operation::FarJump { selector: plan.code_selector },
    }
}

/// Computes what `step` writes, given what the registers hold.
#[verifier::when_used_as_spec(spec_operation)]
pub fn operation(step: TransitionStep, cpu: CpuState, plan: TransitionPlan) -> (r: Operation)
    ensures
        r == spec_operation(step, cpu, plan),
{
    match step {
        TransitionStep::MaskInterrupts => Operation::MaskInterrupts { mask: ALL_LINES_MASKED },
        TransitionStep::LoadIdt => Operation::LoadIdt(plan.idt),
        TransitionStep::EnablePae => Operation::WriteCr4(cpu.cr4 | CR4_PAE),
        TransitionStep::LoadPageTables => Operation::WriteCr3(plan.page_map_level_4),
        TransitionStep::EnableLongMode => Operation::WriteMsr {
            register: EFER_MSR,
            value: cpu.efer | EFER_LME,
        },
        TransitionStep::EnablePaging => Operation::WriteCr0(cpu.cr0 | CR0_PE | CR0_PG),
        TransitionStep::LoadGdt => Operation::LoadGdt(plan.gdt),
        TransitionStep::FarJump => Operation::FarJump { selector: plan.code_selector },
    }
}

impl CpuState {
    /// The registers after `operation`. A write to a model-specific register
    /// other than EFER leaves the modelled registers as they are.
    pub open spec fn spec_perform(self, operation: Operation) -> CpuState {
        match operation {
            Operation::MaskInterrupts { mask } => CpuState {
                pic1_mask: mask,
                pic2_mask: mask,
                ..self
            },
            Operation::LoadIdt(idt) => CpuState { idtr: idt, ..self },
            Operation::WriteCr4(value) => CpuState { cr4: value, ..self },
            Operation::WriteCr3(value) => CpuState { cr3: value, ..self },
            Operation::WriteMsr { register, value } => if register == EFER_MSR {
                CpuState { efer: value, ..self }
            } else {
                self
            },
            Operation::WriteCr0(value) => CpuState { cr0: value, ..self },
            Operation::LoadGdt(gdt) => CpuState { gdtr: gdt, ..self },
            Operation::FarJump { selector } => CpuState { cs: selector, ..self },
        }
    }

    /// The registers after `operation`.
    #[verifier::when_used_as_spec(spec_perform)]
    pub fn perform(self, operation: Operation) -> (r: CpuState)
        ensures
            r == self.spec_perform(operation),
    {
        let mut cpu = self;
        match operation {
            Operation::MaskInterrupts { mask } => {
                cpu.pic1_mask = mask;
                cpu.pic2_mask = mask;
            },
            Operation::LoadIdt(idt) => {
                cpu.idtr = idt;
            },
            Operation::WriteCr4(value) => {
                cpu.cr4 = value;
            },
            Operation::WriteCr3(value) => {
                cpu.cr3 = value;
            },
            Operation::WriteMsr { register, value } => {
                if register == EFER_MSR {
                    cpu.efer = value;
                }
            },
            Operation::WriteCr0(value) => {
                cpu.cr0 = value;
            },
            Operation::LoadGdt(gdt) => {
                cpu.gdtr = gdt;
            },
            Operation::FarJump { selector } => {
                cpu.cs = selector;
            },
        }
        cpu
    }

    /// Protection is enabled: bit 0 of CR0.
    pub open spec fn protection_enabled(self) -> bool {
        self.cr0 & CR0_PE != 0
    }

    /// Paging is enabled: bit 31 of CR0.
    pub open spec fn paging_enabled(self) -> bool {
        self.cr0 & CR0_PG != 0
    }

    /// Physical address extension is enabled: bit 5 of CR4.
    pub open spec fn pae_enabled(self) -> bool {
        self.cr4 & CR4_PAE != 0
    }

    /// Long mode is enabled: bit 8 of EFER.
    pub open spec fn long_mode_enabled(self) -> bool {
        self.efer & EFER_LME != 0
    }

    /// Long mode is active: it is enabled, and so are protection, paging and
    /// physical address extension.
    pub open spec fn spec_in_long_mode(&self) -> bool {
        &&& self.protection_enabled()
        &&& self.paging_enabled()
        &&& self.pae_enabled()
        &&& self.long_mode_enabled()
    }

    /// Tells whether long mode is active.
    #[verifier::when_used_as_spec(spec_in_long_mode)]
    pub fn in_long_mode(&self) -> (r: bool)
        ensures
            r == self.spec_in_long_mode(),
    {
        self.cr0 & CR0_PE != 0 && self.cr0 & CR0_PG != 0 && self.cr4 & CR4_PAE != 0 && self.efer
            & EFER_LME != 0
    }

    /// The registers after the whole transition from `self`: the bits that
    /// the steps set are set, every other bit of CR0, CR4 and EFER is as it
    /// was, and the plan's tables and selector are installed.
    pub open spec fn after_transition(self, plan: TransitionPlan) -> CpuState {
        CpuState {
            cr0: self.cr0 | CR0_PE | CR0_PG,
            cr3: plan.page_map_level_4,
            cr4: self.cr4 | CR4_PAE,
            efer: self.efer | EFER_LME,
            gdtr: plan.gdt,
            idtr: plan.idt,
            cs: plan.code_selector,
            pic1_mask: ALL_LINES_MASKED,
            pic2_mask: ALL_LINES_MASKED,
        }
    }
}

/// The registers after the steps from `step` to the last, each computed from
/// the registers as the step before left them.
pub open spec fn run_from(step: TransitionStep, cpu: CpuState, plan: TransitionPlan) -> CpuState
    decreases 8 - step.spec_number(),
{
    let after = cpu.spec_perform(spec_operation(step, cpu, plan));
    match step {
        TransitionStep::MaskInterrupts => run_from(TransitionStep::LoadIdt, after, plan),
        TransitionStep::LoadIdt => run_from(TransitionStep::EnablePae, after, plan),
        TransitionStep::EnablePae => run_from(TransitionStep::LoadPageTables, after, plan),
        TransitionStep::LoadPageTables => run_from(TransitionStep::EnableLongMode, after, plan),
        TransitionStep::EnableLongMode => run_from(TransitionStep::EnablePaging, after, plan),
        TransitionStep::EnablePaging => run_from(TransitionStep::LoadGdt, after, plan),
        TransitionStep::LoadGdt => run_from(TransitionStep::FarJump, after, plan),
        TransitionStep::FarJump => after,
    }
}

proof fn lemma_set_bits(cr0: u64, cr4: u64, efer: u64)
    by (bit_vector)
    ensures
        (cr0 | 0x0000_0001 | 0x8000_0000) & 0x0000_0001 != 0,
        (cr0 | 0x0000_0001 | 0x8000_0000) & 0x8000_0000 != 0,
        (cr4 | 0x0000_0020) & 0x0000_0020 != 0,
        (efer | 0x0000_0100) & 0x0000_0100 != 0,
{
}

/// Running the eight steps in order leaves the registers as
/// [`CpuState::after_transition`] says, and the CPU in long mode.
pub proof fn transition_reaches_long_mode(cpu: CpuState, plan: TransitionPlan)
    ensures
        run_from(TransitionStep::MaskInterrupts, cpu, plan) == cpu.after_transition(plan),
        cpu.after_transition(plan).spec_in_long_mode(),
        cpu.after_transition(plan).cr3 == plan.page_map_level_4,
        cpu.after_transition(plan).cs == plan.code_selector,
{
    reveal_with_fuel(run_from, 9);
    lemma_set_bits(cpu.cr0, cpu.cr4, cpu.efer);
}

/// Runs the eight steps in order on the register model, starting from `cpu`.
pub fn enter_long_mode(cpu: CpuState, plan: TransitionPlan) -> (r: CpuState)
    ensures
        r == run_from(TransitionStep::MaskInterrupts, cpu, plan),
        r == cpu.after_transition(plan),
        r.spec_in_long_mode(),
{
    let mut state = cpu;
    let mut step = TransitionStep::first();
    loop
        invariant
            run_from(step, state, plan) == run_from(TransitionStep::MaskInterrupts, cpu, plan),
        decreases 8 - step.spec_number(),
    {
        let after = state.perform(operation(step, state, plan));
        match step.next() {
            Some(following) => {
                state = after;
                step = following;
            },
            None => {
                proof {
                    transition_reaches_long_mode(cpu, plan);
                }
                return after;
            },
        }
    }
}

/// The plan of the boot chain: no interrupt handlers, the boot table, and
/// its code segment.
pub open spec fn spec_boot_plan(gdt: Gdt, page_map_level_4: u64) -> TransitionPlan {
    TransitionPlan {
        idt: IdtDescriptor::spec_null(),
        page_map_level_4,
        gdt: gdt.descriptor,
        code_selector: CODE_SELECTOR,
    }
}

/// The plan of the boot chain: no interrupt handlers, the table `gdt`, and
/// the selector of its code segment.
#[verifier::when_used_as_spec(spec_boot_plan)]
pub fn boot_plan(gdt: Gdt, page_map_level_4: u64) -> (r: TransitionPlan)
    ensures
        r == spec_boot_plan(gdt, page_map_level_4),
{
    TransitionPlan {
        idt: IdtDescriptor::null(),
        page_map_level_4,
        gdt: gdt.descriptor,
        code_selector: CODE_SELECTOR,
    }
}

/// With the boot table and the top-level page table at `page_map_level_4`,
/// the transition from any registers ends in long mode with protection,
/// paging and physical address extension enabled, CR3 at the page table, the
/// boot table installed, and a code segment selector that picks, in that
/// table, the executable long-mode segment.
pub proof fn boot_transition_ends_in_long_mode_code(
    cpu: CpuState,
    gdt: Gdt,
    table_address: u64,
    page_map_level_4: u64,
)
    requires
        gdt.is_boot_table_at(table_address),
    ensures
        ({
            let end = run_from(
                TransitionStep::MaskInterrupts,
                cpu,
                spec_boot_plan(gdt, page_map_level_4),
            );
            &&& end.protection_enabled()
            &&& end.paging_enabled()
            &&& end.pae_enabled()
            &&& end.long_mode_enabled()
            &&& end.cr3 == page_map_level_4
            &&& end.gdtr == gdt.descriptor
            &&& gdt.spec_lookup(end.cs) matches Some(segment)
            &&& segment == spec_code_segment()
            &&& segment.flags.long
            &&& segment.access.executable
        }),
{
    transition_reaches_long_mode(cpu, spec_boot_plan(gdt, page_map_level_4));
    decode_inverts_build(spec_code_segment());
}

} // verus!
