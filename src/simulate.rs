//! A whole scan against a chip simulated by its contents, with no hardware
//! and no settling delay.

use crate::dump::group_line;
use crate::lines::{
    bit_levels,
    decode_address,
    encode_address,
    lemma_address_round_trip,
    lemma_sample_round_trip,
    levels_value,
    read_byte,
};
use crate::scan::{Action, Event, ScanConfig, Scanner};
use vstd::prelude::*;

verus! {

/// The byte a simulated chip presents for the address its lines carry.
fn chip_output(image: &[u8], address_levels: &Vec<bool>) -> (data_levels: Vec<bool>)
    requires
        address_levels@.len() <= 32,
        levels_value(address_levels@) < image@.len(),
    ensures
        data_levels@ == bit_levels(
            image@[levels_value(address_levels@) as int] as nat,
            8,
        ),
{
    let address = decode_address(address_levels.as_slice());
    encode_address(image[address as usize] as u32, 8)
}

/// Runs a whole scan of a chip whose bytes are `image`, through the address
/// driver, a simulated chip that decodes the address lines and presents the
/// addressed byte on eight data lines, and the data sampler. Returns the dump
/// lines in the order they were emitted: line `g` renders the bytes at
/// addresses `16 * g` up to `16 * g + 15`.
pub fn scan_image(config: ScanConfig, image: &[u8]) -> (lines: Vec<String>)
    requires
        config.valid(),
        image@.len() == config.capacity,
    ensures
        lines@.len() == config.group_count(),
        forall|g: int|
            0 <= g < lines@.len() ==> #[trigger] lines@[g]@ == group_line(
                image@.subrange(16 * g, 16 * g + 16),
                config.with_ascii,
            ),
{
    let mut scanner = Scanner::new(config);
    let mut lines: Vec<String> = Vec::new();
    let mut event = Event::Ready;
    loop
        invariant_except_break
            !(scanner@.phase is Done),
        invariant
            scanner@.wf(),
            scanner@.config == config,
            image@.len() == config.capacity,
            scanner@.accepts(event),
            scanner@.awaiting_sample ==> event == Event::Sampled(image@[scanner@.address as int]),
            scanner@.group == image@.subrange(16 * scanner@.groups_emitted as int, scanner@.address as int),
            lines@.len() == scanner@.groups_emitted,
            forall|g: int|
                0 <= g < lines@.len() ==> #[trigger] lines@[g]@ == group_line(
                    image@.subrange(16 * g, 16 * g + 16),
                    config.with_ascii,
                ),
        ensures
            scanner@.phase is Done,
            scanner@.wf(),
            lines@.len() == scanner@.groups_emitted,
        decreases scanner@.steps_left(),
    {
        let ghost before = scanner@;
        let action = scanner.step(event);
        match action {
            Action::Sample { address, address_levels } => {
                proof {
                    lemma_address_round_trip(address as nat, config.address_lines as nat);
                    lemma_sample_round_trip(image@[address as int]);
                }
                let data_levels = chip_output(image, &address_levels);
                event = Event::Sampled(read_byte(data_levels.as_slice()));
            },
            Action::Emit { line, indicator: _ } => {
                proof {
                    let g = before.groups_emitted as int;
                    assert(before.group.push(image@[before.address as int]) =~= image@.subrange(
                        16 * g,
                        16 * g + 16,
                    ));
                }
                lines.push(line);
                event = Event::Ready;
            },
            Action::Setup { address_levels: _ } => {
                event = Event::Ready;
            },
            Action::Finish => {
                break ;
            },
            Action::Halted => {
                break ;
            },
        }
        proof {
            if before.awaiting_sample && !(action is Emit) {
                assert(scanner@.group =~= image@.subrange(
                    16 * scanner@.groups_emitted as int,
                    scanner@.address as int,
                ));
            }
        }
    }
    lines
}

} // verus!
