//! The frame loop, driven for several frames against a recording stand-in
//! for the GPU.

use patoka::render::hal::vulkan::command_list::{CommandList, RecordingState};
use patoka::render::hal::vulkan::frame_loop::{FrameLoop, FrameStep};
use patoka::render::hal::vulkan::native::{ClearColor, Command};
use patoka::render::hal::vulkan::renderer::{DeviceHandles, Renderer};
use patoka::render::hal::vulkan::sync::{Fence, Semaphore};
use patoka::render::hal::vulkan::FRAME_OVERLAP;
use patoka::render::hal::{
    CommandListCreateInfo, FenceCreateInfo, RendererCreateInfo, SemaphoreCreateInfo,
};

/// What the stand-in for the GPU saw, in order.
#[derive(Debug, Clone, PartialEq, Eq)]
enum Seen {
    Wait { fence: u64 },
    Reset { fence: u64 },
    Acquire { semaphore: u64 },
    ResetCommands { command_buffer: u64 },
    Begin { command_buffer: u64 },
    Dispatch { command_buffer: u64 },
    End { command_buffer: u64 },
    Submit { command_buffer: u64, fence: u64, wait: u64, signal: u64 },
    Present { semaphore: u64, image_index: u32 },
}

fn handles() -> DeviceHandles {
    DeviceHandles {
        instance: 1,
        debug_callback: 2,
        physical_device: 3,
        present_family_idx: 1,
        graphics_family_idx: 0,
        present_queue: 4,
        graphics_queue: 5,
        surface: 6,
        swapchain: 7,
        swapchain_images: vec![100, 101, 102],
        swapchain_imageviews: vec![200, 201, 202],
        device: 8,
        command_pool: 9,
        descriptor_pool: 10,
    }
}

fn renderer() -> Renderer {
    let info = RendererCreateInfo { title: String::from("Patoka Game"), window_size: (800, 600) };
    Renderer::new(handles(), &info).expect("a swapchain with three images is accepted")
}

/// Runs `frames` frames of the protocol and returns what the GPU saw and the
/// frame slot in which each frame was recorded.
fn run(frames: usize) -> (Vec<Seen>, Vec<usize>) {
    let mut renderer = renderer();
    let mut command_list = CommandList::new([70, 71], CommandListCreateInfo {});
    let render_fence = Fence::new([30, 31], &FenceCreateInfo {});
    let swapchain_semaphore = Semaphore::new([40, 41], &SemaphoreCreateInfo {});
    let render_semaphore = Semaphore::new([50, 51], &SemaphoreCreateInfo {});
    let mut frame_loop = FrameLoop::new();
    let mut seen = Vec::new();
    let mut slots = Vec::new();
    let mut presented = 0;
    let mut next_image = 0u32;
    while presented < frames {
        match frame_loop.step() {
            FrameStep::WaitFence => {
                slots.push(renderer.current_frame());
                assert_eq!(frame_loop.slot(), renderer.current_frame());
                let call = render_fence.wait(&renderer);
                assert!(call.wait_all);
                assert_eq!(call.timeout, 1_000_000_000);
                seen.push(Seen::Wait { fence: call.fence });
            }
            FrameStep::ResetFence => {
                let call = render_fence.reset(&renderer);
                seen.push(Seen::Reset { fence: call.fence });
            }
            FrameStep::StartFrame => {
                let call = renderer.start_frame(&swapchain_semaphore);
                assert_eq!(call.swapchain, 7);
                assert_eq!(call.timeout, 1_000_000_000);
                assert_eq!(call.fence, 0);
                seen.push(Seen::Acquire { semaphore: call.semaphore });
                renderer.image_acquired(Ok(next_image)).expect("the index is in range");
                next_image = (next_image + 1) % 3;
            }
            FrameStep::ResetCommands => {
                let call = command_list.reset(&renderer);
                assert_eq!(call.command, Command::Reset);
                assert_eq!(command_list.state(&renderer), RecordingState::Idle);
                seen.push(Seen::ResetCommands { command_buffer: call.command_buffer });
            }
            FrameStep::BeginCommands => {
                let call = command_list.begin(&renderer);
                assert_eq!(call.command, Command::Begin);
                assert_eq!(command_list.state(&renderer), RecordingState::Recording);
                seen.push(Seen::Begin { command_buffer: call.command_buffer });
            }
            FrameStep::Record => {
                let call = command_list.dispatch_compute_pipeline(&renderer, 800 / 16, 600 / 16, 1);
                assert_eq!(call.command, Command::Dispatch { x: 50, y: 37, z: 1 });
                seen.push(Seen::Dispatch { command_buffer: call.command_buffer });
            }
            FrameStep::EndCommands => {
                let call = command_list.end(&renderer);
                assert_eq!(call.command, Command::End);
                assert_eq!(command_list.state(&renderer), RecordingState::Ready);
                seen.push(Seen::End { command_buffer: call.command_buffer });
            }
            FrameStep::Submit => {
                let call = renderer.submit(
                    &command_list,
                    &[&swapchain_semaphore],
                    &[&render_semaphore],
                    &render_fence,
                );
                assert_eq!(call.queue, 5);
                assert_eq!(call.device_mask, 0);
                assert_eq!(call.wait_semaphore_infos.len(), 1);
                assert_eq!(call.signal_semaphore_infos.len(), 1);
                seen.push(Seen::Submit {
                    command_buffer: call.command_buffer,
                    fence: call.fence,
                    wait: call.wait_semaphore_infos[0].semaphore,
                    signal: call.signal_semaphore_infos[0].semaphore,
                });
            }
            FrameStep::Present => {
                let call = renderer.present(&render_semaphore);
                assert_eq!(call.queue, 5);
                assert_eq!(call.swapchain, 7);
                seen.push(Seen::Present {
                    semaphore: call.wait_semaphore,
                    image_index: call.image_index,
                });
                presented += 1;
            }
        }
        frame_loop.advance();
    }
    (seen, slots)
}

#[test]
fn five_frames_wait_and_reset_five_times() {
    let (seen, slots) = run(5);
    let waits = seen.iter().filter(|s| matches!(s, Seen::Wait { .. })).count();
    let resets = seen.iter().filter(|s| matches!(s, Seen::Reset { .. })).count();
    assert_eq!(waits, 5);
    assert_eq!(resets, 5);
    assert_eq!(slots, vec![0, 1, 0, 1, 0]);
    assert_eq!(seen.len(), 5 * 9);
}

#[test]
fn one_frame_is_seen_in_protocol_order() {
    let (seen, _) = run(1);
    assert_eq!(
        seen,
        vec![
            Seen::Wait { fence: 30 },
            Seen::Reset { fence: 30 },
            Seen::Acquire { semaphore: 40 },
            Seen::ResetCommands { command_buffer: 70 },
            Seen::Begin { command_buffer: 70 },
            Seen::Dispatch { command_buffer: 70 },
            Seen::End { command_buffer: 70 },
            Seen::Submit { command_buffer: 70, fence: 30, wait: 40, signal: 50 },
            Seen::Present { semaphore: 50, image_index: 0 },
        ]
    );
}

#[test]
fn second_frame_uses_the_objects_of_slot_one() {
    let (seen, _) = run(2);
    assert_eq!(
        seen[9..].to_vec(),
        vec![
            Seen::Wait { fence: 31 },
            Seen::Reset { fence: 31 },
            Seen::Acquire { semaphore: 41 },
            Seen::ResetCommands { command_buffer: 71 },
            Seen::Begin { command_buffer: 71 },
            Seen::Dispatch { command_buffer: 71 },
            Seen::End { command_buffer: 71 },
            Seen::Submit { command_buffer: 71, fence: 31, wait: 41, signal: 51 },
            Seen::Present { semaphore: 51, image_index: 1 },
        ]
    );
}

#[test]
fn command_buffer_comes_round_after_frame_overlap_frames() {
    let frames = 3 * FRAME_OVERLAP;
    let (seen, slots) = run(frames);
    let begun: Vec<u64> = seen
        .iter()
        .filter_map(|s| match s {
            Seen::Begin { command_buffer } => Some(*command_buffer),
            _ => None,
        })
        .collect();
    assert_eq!(begun.len(), frames);
    for n in FRAME_OVERLAP..frames {
        assert_eq!(begun[n], begun[n - FRAME_OVERLAP]);
        assert_eq!(slots[n], slots[n - FRAME_OVERLAP]);
        for k in 1..FRAME_OVERLAP {
            assert_ne!(begun[n], begun[n - k]);
        }
    }
}

#[test]
fn fence_is_waited_on_then_reset_before_each_recording() {
    let frames = 3 * FRAME_OVERLAP;
    let (seen, _) = run(frames);
    let mut last_submit_with: Vec<(u64, u64)> = Vec::new();
    let mut waited: Option<u64> = None;
    let mut reset: Option<u64> = None;
    let mut recordings = 0;
    for event in &seen {
        match event {
            Seen::Wait { fence } => {
                assert!(waited.is_none());
                waited = Some(*fence);
            }
            Seen::Reset { fence } => {
                assert_eq!(waited, Some(*fence));
                reset = Some(*fence);
            }
            Seen::Begin { command_buffer } => {
                let fence = reset.expect("the fence is reset before recording starts");
                assert_eq!(waited, Some(fence));
                for (buffer, with) in &last_submit_with {
                    if buffer == command_buffer {
                        assert_eq!(*with, fence);
                    }
                }
                recordings += 1;
            }
            Seen::Submit { command_buffer, fence, .. } => {
                assert_eq!(reset, Some(*fence));
                last_submit_with.retain(|(buffer, _)| buffer != command_buffer);
                last_submit_with.push((*command_buffer, *fence));
            }
            Seen::Present { .. } => {
                waited = None;
                reset = None;
            }
            _ => {}
        }
    }
    assert_eq!(recordings, frames);
}

#[test]
fn frame_loop_cycles_through_nine_steps() {
    let mut frame_loop = FrameLoop::new();
    let order = [
        FrameStep::WaitFence,
        FrameStep::ResetFence,
        FrameStep::StartFrame,
        FrameStep::ResetCommands,
        FrameStep::BeginCommands,
        FrameStep::Record,
        FrameStep::EndCommands,
        FrameStep::Submit,
        FrameStep::Present,
    ];
    for frame in 0..4 {
        for step in order {
            assert_eq!(frame_loop.step(), step);
            assert_eq!(frame_loop.slot(), frame % 2);
            assert_eq!(step.next(), order[(order.iter().position(|s| *s == step).unwrap() + 1) % 9]);
            frame_loop.advance();
        }
    }
}

#[test]
fn flash_screen_clears_with_the_colour_of_frame_120() {
    let renderer = renderer();
    let command_list = CommandList::new([70, 71], CommandListCreateInfo {});
    let frame_number: u32 = 120;
    let blue = (frame_number as f32 / 120.0).sin().abs();
    let color = ClearColor {
        red: 0.0f32.to_bits(),
        green: 0.0f32.to_bits(),
        blue: blue.to_bits(),
        alpha: 1.0f32.to_bits(),
    };
    let calls = command_list.flash_screen(&renderer, 100, color);
    assert_eq!(calls.len(), 2);
    match calls[1].command {
        Command::ClearColorImage { image, color, .. } => {
            assert_eq!(image, 100);
            let cleared = f32::from_bits(color.blue);
            assert!((cleared - 0.841).abs() < 0.001);
            assert!((cleared as f64 - 1.0f64.sin().abs()).abs() < 1e-6);
            assert_eq!(f32::from_bits(color.alpha), 1.0);
        }
        other => panic!("expected a clear, found {:?}", other),
    }
}
