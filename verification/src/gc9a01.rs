use vstd::prelude::*;

verus! {

/// Width and height, in pixels, of the GC9A01 panel and of its frame memory.
pub const PANEL_SIZE: u16 = 240u16;

/// The command that starts a write of pixels to the frame memory.
pub const RAMWR: u8 = 0x2Cu8;

/// The software reset command, used when no reset line is wired.
pub const SWRESET: u8 = 0x01u8;

/// The command that switches the panel on.
pub const DISPON: u8 = 0x29u8;

/// One step of bringing up the GC9A01 panel (16-bit colour, RGB565).
pub enum InitStep {
    /// Pulse the reset line.
    HardReset,
    /// Send a command byte followed by its parameter bytes.
    Command(u8, Vec<u8>),
    /// Wait this many microseconds.
    DelayUs(u32),
}

/// An initialisation step with its parameters as a sequence.
#[verifier::ext_equal]
pub enum InitStepView {
    HardReset,
    Command(u8, Seq<u8>),
    DelayUs(u32),
}

impl View for InitStep {
    type V = InitStepView;

    open spec fn view(&self) -> InitStepView {
        match self {
            InitStep::HardReset => InitStepView::HardReset,
            InitStep::Command(code, params) => InitStepView::Command(*code, params@),
            InitStep::DelayUs(us) => InitStepView::DelayUs(*us),
        }
    }
}

/// Part 1 of the register settings.
pub open spec fn spec_register_setup_1() -> Seq<InitStepView> {
    seq![
        InitStepView::Command(0xEF, Seq::empty()),
        InitStepView::Command(0xEB, seq![0x14u8]),
        InitStepView::Command(0xFE, Seq::empty()),
        InitStepView::Command(0xEF, Seq::empty()),
        InitStepView::Command(0xEB, seq![0x14u8]),
        InitStepView::Command(0x84, seq![0x40u8]),
        InitStepView::Command(0x85, seq![0xFFu8]),
    ]
}

/// Part 2 of the register settings.
pub open spec fn spec_register_setup_2() -> Seq<InitStepView> {
    seq![
        InitStepView::Command(0x86, seq![0xFFu8]),
        InitStepView::Command(0x87, seq![0xFFu8]),
        InitStepView::Command(0x88, seq![0x0Au8]),
        InitStepView::Command(0x89, seq![0x21u8]),
        InitStepView::Command(0x8A, seq![0x00u8]),
        InitStepView::Command(0x8B, seq![0x80u8]),
        InitStepView::Command(0x8C, seq![0x01u8]),
    ]
}

/// Part 3 of the register settings.
pub open spec fn spec_register_setup_3() -> Seq<InitStepView> {
    seq![
        InitStepView::Command(0x8D, seq![0x01u8]),
        InitStepView::Command(0x8E, seq![0xFFu8]),
        InitStepView::Command(0x8F, seq![0xFFu8]),
        InitStepView::Command(0xB6, seq![0x00u8, 0x20u8]),
        InitStepView::Command(0x3A, seq![0x05u8]),
        InitStepView::Command(0x90, seq![0x08u8, 0x08u8, 0x08u8, 0x08u8]),
        InitStepView::Command(0xBD, seq![0x06u8]),
    ]
}

/// Part 4 of the register settings.
pub open spec fn spec_register_setup_4() -> Seq<InitStepView> {
    seq![
        InitStepView::Command(0xBC, seq![0x00u8]),
        InitStepView::Command(0xFF, seq![0x60u8, 0x01u8, 0x04u8]),
        InitStepView::Command(0xC3, seq![0x13u8]),
        InitStepView::Command(0xC4, seq![0x13u8]),
        InitStepView::Command(0xC9, seq![0x22u8]),
        InitStepView::Command(0xBE, seq![0x11u8]),
        InitStepView::Command(0xE1, seq![0x10u8, 0x0Eu8]),
    ]
}

/// Part 5 of the register settings.
pub open spec fn spec_register_setup_5() -> Seq<InitStepView> {
    seq![
        InitStepView::Command(0xDF, seq![0x21u8, 0x0Cu8, 0x02u8]),
        InitStepView::Command(0xF0, seq![0x45u8, 0x09u8, 0x08u8, 0x08u8, 0x26u8, 0x2Au8]),
        InitStepView::Command(0xF1, seq![0x43u8, 0x70u8, 0x72u8, 0x36u8, 0x37u8, 0x6Fu8]),
        InitStepView::Command(0xF2, seq![0x45u8, 0x09u8, 0x08u8, 0x08u8, 0x26u8, 0x2Au8]),
        InitStepView::Command(0xF3, seq![0x43u8, 0x70u8, 0x72u8, 0x36u8, 0x37u8, 0x6Fu8]),
        InitStepView::Command(0xED, seq![0x1Bu8, 0x0Bu8]),
        InitStepView::Command(0xAE, seq![0x77u8]),
    ]
}

/// Part 6 of the register settings.
pub open spec fn spec_register_setup_6() -> Seq<InitStepView> {
    seq![
        InitStepView::Command(0xCD, seq![0x63u8]),
        InitStepView::Command(0x70, seq![0x07u8, 0x07u8, 0x04u8, 0x0Eu8, 0x0Fu8, 0x09u8, 0x07u8, 0x08u8, 0x03u8]),
        InitStepView::Command(0xE8, seq![0x34u8]),
        InitStepView::Command(0x62, seq![0x18u8, 0x0Du8, 0x71u8, 0xEDu8, 0x70u8, 0x70u8, 0x18u8, 0x0Fu8, 0x71u8, 0xEFu8, 0x70u8, 0x70u8]),
        InitStepView::Command(0x63, seq![0x18u8, 0x11u8, 0x71u8, 0xF1u8, 0x70u8, 0x70u8, 0x18u8, 0x13u8, 0x71u8, 0xF3u8, 0x70u8, 0x70u8]),
        InitStepView::Command(0x64, seq![0x28u8, 0x29u8, 0xF1u8, 0x01u8, 0xF1u8, 0x00u8, 0x07u8]),
        InitStepView::Command(0x66, seq![0x3Cu8, 0x00u8, 0xCDu8, 0x67u8, 0x45u8, 0x45u8, 0x10u8, 0x00u8, 0x00u8, 0x00u8]),
    ]
}

/// Part 7 of the register settings.
pub open spec fn spec_register_setup_7() -> Seq<InitStepView> {
    seq![
        InitStepView::Command(0x67, seq![0x00u8, 0x3Cu8, 0x00u8, 0x00u8, 0x00u8, 0x01u8, 0x54u8, 0x10u8, 0x32u8, 0x98u8]),
        InitStepView::Command(0x74, seq![0x10u8, 0x85u8, 0x80u8, 0x00u8, 0x00u8, 0x4Eu8, 0x00u8]),
        InitStepView::Command(0x98, seq![0x3Eu8, 0x07u8]),
        InitStepView::Command(0x35, Seq::empty()),
        InitStepView::Command(0x21, Seq::empty()),
        InitStepView::Command(0x11, Seq::empty()),
        InitStepView::Command(0x36, seq![0x48u8]),
    ]
}

/// The register settings that the panel vendor prescribes, from the inter-register enables to
/// the display orientation, in the order they are sent.
pub open spec fn spec_register_setup() -> Seq<InitStepView> {
    spec_register_setup_1() + spec_register_setup_2() + spec_register_setup_3() + spec_register_setup_4() + spec_register_setup_5() + spec_register_setup_6() + spec_register_setup_7()
}

/// The whole bring-up: a reset (by the reset line when there is one, else by `SWRESET`), the
/// register settings, 120 ms to leave sleep, `DISPON`, and 30 ms for the panel to come up.
pub open spec fn spec_init_steps(has_reset_pin: bool) -> Seq<InitStepView> {
    seq![if has_reset_pin { InitStepView::HardReset } else { InitStepView::Command(SWRESET, Seq::empty()) }]
        + spec_register_setup()
        + seq![InitStepView::DelayUs(120_000u32), InitStepView::Command(DISPON, Seq::empty()), InitStepView::DelayUs(30_000u32)]
}

/// Appends a step.
fn push_step(steps: &mut Vec<InitStep>, step: InitStep)
    ensures
        final(steps)@.map_values(|s: InitStep| s@) == old(steps)@.map_values(|s: InitStep| s@).push(step@),
{
    steps.push(step);
    assert(steps@.map_values(|s: InitStep| s@) =~= old(steps)@.map_values(|s: InitStep| s@).push(step@));
}

/// Appends a command step.
fn push_command(steps: &mut Vec<InitStep>, code: u8, params: Vec<u8>)
    ensures
        final(steps)@.map_values(|s: InitStep| s@) == old(steps)@.map_values(|s: InitStep| s@).push(
            InitStepView::Command(code, params@),
        ),
{
    steps.push(InitStep::Command(code, params));
    assert(steps@.map_values(|s: InitStep| s@) =~= old(steps)@.map_values(|s: InitStep| s@).push(
        InitStepView::Command(code, params@),
    ));
}

/// Part 1 of the register settings.
fn register_setup_1(steps: &mut Vec<InitStep>)
    ensures
        final(steps)@.map_values(|s: InitStep| s@) == old(steps)@.map_values(|s: InitStep| s@) + spec_register_setup_1(),
{
    let ghost start = steps@.map_values(|s: InitStep| s@);
    push_command(steps, 0xEF, vec![]);
    push_command(steps, 0xEB, vec![0x14]);
    push_command(steps, 0xFE, vec![]);
    push_command(steps, 0xEF, vec![]);
    push_command(steps, 0xEB, vec![0x14]);
    push_command(steps, 0x84, vec![0x40]);
    push_command(steps, 0x85, vec![0xFF]);
    assert(steps@.map_values(|s: InitStep| s@) =~~= start + spec_register_setup_1());
}

/// Part 2 of the register settings.
fn register_setup_2(steps: &mut Vec<InitStep>)
    ensures
        final(steps)@.map_values(|s: InitStep| s@) == old(steps)@.map_values(|s: InitStep| s@) + spec_register_setup_2(),
{
    let ghost start = steps@.map_values(|s: InitStep| s@);
    push_command(steps, 0x86, vec![0xFF]);
    push_command(steps, 0x87, vec![0xFF]);
    push_command(steps, 0x88, vec![0x0A]);
    push_command(steps, 0x89, vec![0x21]);
    push_command(steps, 0x8A, vec![0x00]);
    push_command(steps, 0x8B, vec![0x80]);
    push_command(steps, 0x8C, vec![0x01]);
    assert(steps@.map_values(|s: InitStep| s@) =~~= start + spec_register_setup_2());
}

/// Part 3 of the register settings.
fn register_setup_3(steps: &mut Vec<InitStep>)
    ensures
        final(steps)@.map_values(|s: InitStep| s@) == old(steps)@.map_values(|s: InitStep| s@) + spec_register_setup_3(),
{
    let ghost start = steps@.map_values(|s: InitStep| s@);
    push_command(steps, 0x8D, vec![0x01]);
    push_command(steps, 0x8E, vec![0xFF]);
    push_command(steps, 0x8F, vec![0xFF]);
    push_command(steps, 0xB6, vec![0x00, 0x20]);
    push_command(steps, 0x3A, vec![0x05]);
    push_command(steps, 0x90, vec![0x08, 0x08, 0x08, 0x08]);
    push_command(steps, 0xBD, vec![0x06]);
    assert(steps@.map_values(|s: InitStep| s@) =~~= start + spec_register_setup_3());
}

/// Part 4 of the register settings.
fn register_setup_4(steps: &mut Vec<InitStep>)
    ensures
        final(steps)@.map_values(|s: InitStep| s@) == old(steps)@.map_values(|s: InitStep| s@) + spec_register_setup_4(),
{
    let ghost start = steps@.map_values(|s: InitStep| s@);
    push_command(steps, 0xBC, vec![0x00]);
    push_command(steps, 0xFF, vec![0x60, 0x01, 0x04]);
    push_command(steps, 0xC3, vec![0x13]);
    push_command(steps, 0xC4, vec![0x13]);
    push_command(steps, 0xC9, vec![0x22]);
    push_command(steps, 0xBE, vec![0x11]);
    push_command(steps, 0xE1, vec![0x10, 0x0E]);
    assert(steps@.map_values(|s: InitStep| s@) =~~= start + spec_register_setup_4());
}

/// Part 5 of the register settings.
fn register_setup_5(steps: &mut Vec<InitStep>)
    ensures
        final(steps)@.map_values(|s: InitStep| s@) == old(steps)@.map_values(|s: InitStep| s@) + spec_register_setup_5(),
{
    let ghost start = steps@.map_values(|s: InitStep| s@);
    push_command(steps, 0xDF, vec![0x21, 0x0C, 0x02]);
    push_command(steps, 0xF0, vec![0x45, 0x09, 0x08, 0x08, 0x26, 0x2A]);
    push_command(steps, 0xF1, vec![0x43, 0x70, 0x72, 0x36, 0x37, 0x6F]);
    push_command(steps, 0xF2, vec![0x45, 0x09, 0x08, 0x08, 0x26, 0x2A]);
    push_command(steps, 0xF3, vec![0x43, 0x70, 0x72, 0x36, 0x37, 0x6F]);
    push_command(steps, 0xED, vec![0x1B, 0x0B]);
    push_command(steps, 0xAE, vec![0x77]);
    assert(steps@.map_values(|s: InitStep| s@) =~~= start + spec_register_setup_5());
}

/// Part 6 of the register settings.
fn register_setup_6(steps: &mut Vec<InitStep>)
    ensures
        final(steps)@.map_values(|s: InitStep| s@) == old(steps)@.map_values(|s: InitStep| s@) + spec_register_setup_6(),
{
    let ghost start = steps@.map_values(|s: InitStep| s@);
    push_command(steps, 0xCD, vec![0x63]);
    push_command(steps, 0x70, vec![0x07, 0x07, 0x04, 0x0E, 0x0F, 0x09, 0x07, 0x08, 0x03]);
    push_command(steps, 0xE8, vec![0x34]);
    push_command(steps, 0x62, vec![0x18, 0x0D, 0x71, 0xED, 0x70, 0x70, 0x18, 0x0F, 0x71, 0xEF, 0x70, 0x70]);
    push_command(steps, 0x63, vec![0x18, 0x11, 0x71, 0xF1, 0x70, 0x70, 0x18, 0x13, 0x71, 0xF3, 0x70, 0x70]);
    push_command(steps, 0x64, vec![0x28, 0x29, 0xF1, 0x01, 0xF1, 0x00, 0x07]);
    push_command(steps, 0x66, vec![0x3C, 0x00, 0xCD, 0x67, 0x45, 0x45, 0x10, 0x00, 0x00, 0x00]);
    assert(steps@.map_values(|s: InitStep| s@) =~~= start + spec_register_setup_6());
}

/// Part 7 of the register settings.
fn register_setup_7(steps: &mut Vec<InitStep>)
    ensures
        final(steps)@.map_values(|s: InitStep| s@) == old(steps)@.map_values(|s: InitStep| s@) + spec_register_setup_7(),
{
    let ghost start = steps@.map_values(|s: InitStep| s@);
    push_command(steps, 0x67, vec![0x00, 0x3C, 0x00, 0x00, 0x00, 0x01, 0x54, 0x10, 0x32, 0x98]);
    push_command(steps, 0x74, vec![0x10, 0x85, 0x80, 0x00, 0x00, 0x4E, 0x00]);
    push_command(steps, 0x98, vec![0x3E, 0x07]);
    push_command(steps, 0x35, vec![]);
    push_command(steps, 0x21, vec![]);
    push_command(steps, 0x11, vec![]);
    push_command(steps, 0x36, vec![0x48]);
    assert(steps@.map_values(|s: InitStep| s@) =~~= start + spec_register_setup_7());
}

/// The register settings, in the order they are sent.
fn register_setup(steps: &mut Vec<InitStep>)
    ensures
        final(steps)@.map_values(|s: InitStep| s@) == old(steps)@.map_values(|s: InitStep| s@) + spec_register_setup(),
{
    let ghost start = steps@.map_values(|s: InitStep| s@);
    register_setup_1(steps);
    register_setup_2(steps);
    register_setup_3(steps);
    register_setup_4(steps);
    register_setup_5(steps);
    register_setup_6(steps);
    register_setup_7(steps);
    assert(steps@.map_values(|s: InitStep| s@) =~~= start + spec_register_setup());
}

/// The steps that bring up the panel, in order.
pub fn init_steps(has_reset_pin: bool) -> (r: Vec<InitStep>)
    ensures
        r@.map_values(|s: InitStep| s@) == spec_init_steps(has_reset_pin),
{
    let mut steps: Vec<InitStep> = Vec::new();
    if has_reset_pin {
        push_step(&mut steps, InitStep::HardReset);
    } else {
        push_command(&mut steps, SWRESET, vec![]);
    }
    register_setup(&mut steps);
    push_step(&mut steps, InitStep::DelayUs(120_000));
    push_command(&mut steps, DISPON, vec![]);
    push_step(&mut steps, InitStep::DelayUs(30_000));
    assert(steps@.map_values(|s: InitStep| s@) =~~= spec_init_steps(has_reset_pin));
    steps
}

} // verus!
