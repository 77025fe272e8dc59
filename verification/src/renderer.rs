//! Driving frames. One frame is in flight at a time: its image is
//! acquired, the command buffer recorded anew, the work submitted and the
//! image presented, and only then the next frame begins.
//!
//! The renderer decides and the caller acts. [`Renderer::draw_frame`]
//! takes what happened last and says what to do next; whatever goes wrong
//! on the way ends the run.

use crate::pipeline_graphics::{PipelineBindPoint, PipelineStage, Rect2D};
use crate::swapchain::SwapChain;
use vstd::prelude::*;

verus! {

/// What the renderer does while it acquires an image.
#[derive(PartialEq, Eq, Structural, Debug, Clone, Copy)]
pub enum AcquireStep {
    /// It waits until the frame before is through.
    WaitingForFence,
    /// It resets the fence for the frame to come.
    ResettingFence,
    /// It asks the chain for its next image.
    AcquiringImage,
}

/// What the renderer does while it records.
#[derive(PartialEq, Eq, Structural, Debug, Clone, Copy)]
pub enum RecordStep {
    /// It resets the command buffer.
    ResettingCommandBuffer,
    /// It records the commands of the frame.
    RecordingCommands,
}

/// How far the frame in flight has come.
#[derive(PartialEq, Eq, Structural, Debug, Clone, Copy)]
pub enum FrameState {
    /// No frame is in flight.
    Idle,
    /// The last frame is waited for and the next image asked for.
    Acquiring(AcquireStep),
    /// The command buffer is being recorded.
    Recording(RecordStep),
    /// The commands are handed to the graphics queue.
    Submitted,
    /// The image is handed to the present queue.
    Presenting,
    /// Something went wrong. Nothing more is drawn.
    Failed,
}

/// What the caller reports to the renderer.
#[derive(PartialEq, Eq, Structural, Debug, Clone, Copy)]
pub enum FrameEvent {
    /// A frame is wanted.
    RedrawRequested,
    /// What was asked for last is done.
    StepDone,
    /// The chain gave the image of this index.
    ImageAcquired(u32),
    /// The driver refused what was asked of it.
    DriverError,
}

/// What the renderer asks of the caller.
#[derive(PartialEq, Eq, Structural, Debug, Clone, Copy)]
pub enum FrameAction {
    /// Wait on `fence`, for as long as `timeout` allows.
    WaitForFence { fence: u64, timeout: u64 },
    /// Reset `fence`.
    ResetFence { fence: u64 },
    /// Ask `swapchain` for its next image, for as long as `timeout`
    /// allows, and have `signal_semaphore` signalled when the image can be
    /// drawn to. No fence is signalled.
    AcquireImage { swapchain: u64, timeout: u64, signal_semaphore: u64 },
    /// Reset `command_buffer`.
    ResetCommandBuffer { command_buffer: u64 },
    /// Record into `command_buffer` what [`Renderer::record_commandbuffer`]
    /// lists for the image.
    RecordCommands { command_buffer: u64, image_index: u32 },
    /// Submit `command_buffer` to `queue`. The work waits at `wait_stage`
    /// for `wait_semaphore`, signals `signal_semaphore` when it is through,
    /// and `fence` with it.
    SubmitWork {
        queue: u64,
        wait_semaphore: u64,
        wait_stage: PipelineStage,
        command_buffer: u64,
        signal_semaphore: u64,
        fence: u64,
    },
    /// Present the image on `queue` once `wait_semaphore` is signalled.
    PresentImage { queue: u64, wait_semaphore: u64, swapchain: u64, image_index: u32 },
    /// The frame is done. Nothing to do until the next is wanted.
    Rest,
    /// Wait until the device has nothing left to do.
    WaitIdle,
    /// Give up: the run cannot go on.
    Abort,
}

/// The bits of the four channels that an attachment is cleared to.
#[derive(PartialEq, Eq, Structural, Debug, Clone, Copy)]
pub struct ClearColor {
    pub red_bits: u32,
    pub green_bits: u32,
    pub blue_bits: u32,
    pub alpha_bits: u32,
}

/// One command of the frame's command buffer.
#[derive(PartialEq, Eq, Structural, Debug, Clone, Copy)]
pub enum Command {
    BeginCommandBuffer,
    /// Begins the render pass on a framebuffer, with its commands inline.
    BeginRenderPass { render_pass: u64, framebuffer: u64, render_area: Rect2D, clear: ClearColor },
    BindPipeline { bind_point: PipelineBindPoint, pipeline: u64 },
    Draw { vertex_count: u32, instance_count: u32, first_vertex: u32, first_instance: u32 },
    EndRenderPass,
    EndCommandBuffer,
}

/// How the fence of the frame in flight is created.
#[derive(PartialEq, Eq, Structural, Debug, Clone, Copy)]
pub struct FenceCreateInfo {
    pub signaled: bool,
}

/// What the renderer owns, by kind.
#[derive(PartialEq, Eq, Structural, Debug, Clone, Copy)]
pub enum Resource {
    Instance,
    DebugMessenger,
    Surface,
    Device,
    Swapchain,
    ImageViews,
    RenderPass,
    PipelineLayout,
    Pipeline,
    Framebuffers,
    CommandPool,
    CommandBuffer,
    ImageAvailableSemaphore,
    RenderFinishedSemaphore,
    InFlightFence,
}

/// The renderer once everything is set up.
#[derive(Debug)]
pub struct Renderer {
    pub state: FrameState,
    /// The image of the frame in flight, from recording on.
    pub image_index: u32,
    pub image_available_smph: u64,
    pub render_finished_smph: u64,
    pub in_flight_fence: u64,
    pub command_buffer: u64,
    pub render_pass: u64,
    pub pipeline: u64,
    pub swap_chain: SwapChain,
    pub graphics_queue: u64,
    pub present_queue: u64,
}

impl Renderer {
    /// The chain is complete, and the image of a frame that is past
    /// acquiring is one of the chain's.
    pub open spec fn wf(&self) -> bool {
        &&& self.swap_chain.is_complete()
        &&& (self.state is Recording || self.state == FrameState::Submitted || self.state
            == FrameState::Presenting) ==> self.image_index < self.swap_chain.framebuffers@.len()
    }

    /// The state that follows `event`. A frame goes its way step by step:
    /// the fence is waited for and reset, the image acquired, the command
    /// buffer reset and recorded, the work submitted, the image presented.
    /// A driver error, an event out of turn or an image that the chain
    /// does not have ends the run, and after that nothing changes it.
    pub open spec fn next_state(&self, event: FrameEvent) -> FrameState {
        match (self.state, event) {
            (FrameState::Idle, FrameEvent::RedrawRequested) => FrameState::Acquiring(
                AcquireStep::WaitingForFence,
            ),
            (FrameState::Acquiring(AcquireStep::WaitingForFence), FrameEvent::StepDone) => {
                FrameState::Acquiring(AcquireStep::ResettingFence)
            },
            (FrameState::Acquiring(AcquireStep::ResettingFence), FrameEvent::StepDone) => {
                FrameState::Acquiring(AcquireStep::AcquiringImage)
            },
            (
                FrameState::Acquiring(AcquireStep::AcquiringImage),
                FrameEvent::ImageAcquired(index),
            ) => if index < self.swap_chain.framebuffers@.len() {
                FrameState::Recording(RecordStep::ResettingCommandBuffer)
            } else {
                FrameState::Failed
            },
            (FrameState::Recording(RecordStep::ResettingCommandBuffer), FrameEvent::StepDone) => {
                FrameState::Recording(RecordStep::RecordingCommands)
            },
            (FrameState::Recording(RecordStep::RecordingCommands), FrameEvent::StepDone) => {
                FrameState::Submitted
            },
            (FrameState::Submitted, FrameEvent::StepDone) => FrameState::Presenting,
            (FrameState::Presenting, FrameEvent::StepDone) => FrameState::Idle,
            _ => FrameState::Failed,
        }
    }

    /// The image in flight after `event`.
    pub open spec fn next_image(&self, event: FrameEvent) -> u32 {
        match (self.state, event) {
            (
                FrameState::Acquiring(AcquireStep::AcquiringImage),
                FrameEvent::ImageAcquired(index),
            ) => if index < self.swap_chain.framebuffers@.len() {
                index
            } else {
                self.image_index
            },
            _ => self.image_index,
        }
    }

    /// What is to be done on entering `state` with the image `image`.
    /// Neither wait has a time limit.
    pub open spec fn action_on_entering(&self, state: FrameState, image: u32) -> FrameAction {
        match state {
            FrameState::Idle => FrameAction::Rest,
            FrameState::Acquiring(AcquireStep::WaitingForFence) => FrameAction::WaitForFence {
                fence: self.in_flight_fence,
                timeout: u64::MAX,
            },
            FrameState::Acquiring(AcquireStep::ResettingFence) => FrameAction::ResetFence {
                fence: self.in_flight_fence,
            },
            FrameState::Acquiring(AcquireStep::AcquiringImage) => FrameAction::AcquireImage {
                swapchain: self.swap_chain.inner,
                timeout: u64::MAX,
                signal_semaphore: self.image_available_smph,
            },
            FrameState::Recording(RecordStep::ResettingCommandBuffer) => {
                FrameAction::ResetCommandBuffer { command_buffer: self.command_buffer }
            },
            FrameState::Recording(RecordStep::RecordingCommands) => FrameAction::RecordCommands {
                command_buffer: self.command_buffer,
                image_index: image,
            },
            FrameState::Submitted => FrameAction::SubmitWork {
                queue: self.graphics_queue,
                wait_semaphore: self.image_available_smph,
                wait_stage: PipelineStage::ColorAttachmentOutput,
                command_buffer: self.command_buffer,
                signal_semaphore: self.render_finished_smph,
                fence: self.in_flight_fence,
            },
            FrameState::Presenting => FrameAction::PresentImage {
                queue: self.present_queue,
                wait_semaphore: self.render_finished_smph,
                swapchain: self.swap_chain.inner,
                image_index: image,
            },
            FrameState::Failed => FrameAction::Abort,
        }
    }

    /// The commands of a frame that draws to the image `image_index`: the
    /// render pass on that image's framebuffer, cleared and covering the
    /// whole picture; the pipeline; one triangle.
    pub open spec fn frame_commands(&self, image_index: int) -> Seq<Command> {
        seq![
            Command::BeginCommandBuffer,
            Command::BeginRenderPass {
                render_pass: self.render_pass,
                framebuffer: self.swap_chain.framebuffers@[image_index],
                render_area: Rect2D { x: 0, y: 0, extent: self.swap_chain.extent },
                clear: ClearColor { red_bits: 0, green_bits: 0, blue_bits: 0, alpha_bits: 0 },
            },
            Command::BindPipeline { bind_point: PipelineBindPoint::Graphics, pipeline: self.pipeline },
            Command::Draw { vertex_count: 3, instance_count: 1, first_vertex: 0, first_instance: 0 },
            Command::EndRenderPass,
            Command::EndCommandBuffer,
        ]
    }

    /// Whether the renderer is sound: see [`Renderer::wf`].
    pub fn is_well_formed(&self) -> (sound: bool)
        ensures
            sound == self.wf(),
    {
        let past_acquiring = match self.state {
            FrameState::Recording(_) => true,
            FrameState::Submitted => true,
            FrameState::Presenting => true,
            _ => false,
        };
        self.swap_chain.has_all_objects() && (!past_acquiring || (self.image_index as usize)
            < self.swap_chain.framebuffers.len())
    }

    /// The fence of the frame in flight starts out signalled, so that the
    /// first frame does not wait for a frame before it.
    pub fn in_flight_fence_info() -> (info: FenceCreateInfo)
        ensures
            info.signaled,
    {
        FenceCreateInfo { signaled: true }
    }

    /// Puts the renderer together from what was created. No frame is in
    /// flight.
    pub fn new(
        swap_chain: SwapChain,
        render_pass: u64,
        pipeline: u64,
        command_buffer: u64,
        image_available_smph: u64,
        render_finished_smph: u64,
        in_flight_fence: u64,
        graphics_queue: u64,
        present_queue: u64,
    ) -> (renderer: Self)
        requires
            swap_chain.is_complete(),
        ensures
            renderer.wf(),
            renderer.state == FrameState::Idle,
            renderer.swap_chain == swap_chain,
            renderer.render_pass == render_pass,
            renderer.pipeline == pipeline,
            renderer.command_buffer == command_buffer,
            renderer.image_available_smph == image_available_smph,
            renderer.render_finished_smph == render_finished_smph,
            renderer.in_flight_fence == in_flight_fence,
            renderer.graphics_queue == graphics_queue,
            renderer.present_queue == present_queue,
    {
        Renderer {
            state: FrameState::Idle,
            image_index: 0,
            image_available_smph,
            render_finished_smph,
            in_flight_fence,
            command_buffer,
            render_pass,
            pipeline,
            swap_chain,
            graphics_queue,
            present_queue,
        }
    }

    /// Takes the frame one step on: from what the caller reports to what
    /// it is to do next. Only the state and the image in flight change.
    pub fn draw_frame(&mut self, event: FrameEvent) -> (action: FrameAction)
        requires
            old(self).wf(),
        ensures
            final(self).wf(),
            final(self).state == old(self).next_state(event),
            final(self).image_index == old(self).next_image(event),
            action == old(self).action_on_entering(
                old(self).next_state(event),
                old(self).next_image(event),
            ),
            final(self).image_available_smph == old(self).image_available_smph,
            final(self).render_finished_smph == old(self).render_finished_smph,
            final(self).in_flight_fence == old(self).in_flight_fence,
            final(self).command_buffer == old(self).command_buffer,
            final(self).render_pass == old(self).render_pass,
            final(self).pipeline == old(self).pipeline,
            final(self).swap_chain == old(self).swap_chain,
            final(self).graphics_queue == old(self).graphics_queue,
            final(self).present_queue == old(self).present_queue,
    {
        match (self.state, event) {
            (FrameState::Idle, FrameEvent::RedrawRequested) => {
                self.state = FrameState::Acquiring(AcquireStep::WaitingForFence);
                FrameAction::WaitForFence { fence: self.in_flight_fence, timeout: u64::MAX }
            },
            (FrameState::Acquiring(AcquireStep::WaitingForFence), FrameEvent::StepDone) => {
                self.state = FrameState::Acquiring(AcquireStep::ResettingFence);
                FrameAction::ResetFence { fence: self.in_flight_fence }
            },
            (FrameState::Acquiring(AcquireStep::ResettingFence), FrameEvent::StepDone) => {
                self.state = FrameState::Acquiring(AcquireStep::AcquiringImage);
                FrameAction::AcquireImage {
                    swapchain: self.swap_chain.inner,
                    timeout: u64::MAX,
                    signal_semaphore: self.image_available_smph,
                }
            },
            (
                FrameState::Acquiring(AcquireStep::AcquiringImage),
                FrameEvent::ImageAcquired(index),
            ) => {
                if (index as usize) < self.swap_chain.framebuffers.len() {
                    self.state = FrameState::Recording(RecordStep::ResettingCommandBuffer);
                    self.image_index = index;
                    FrameAction::ResetCommandBuffer { command_buffer: self.command_buffer }
                } else {
                    self.state = FrameState::Failed;
                    FrameAction::Abort
                }
            },
            (FrameState::Recording(RecordStep::ResettingCommandBuffer), FrameEvent::StepDone) => {
                self.state = FrameState::Recording(RecordStep::RecordingCommands);
                FrameAction::RecordCommands {
                    command_buffer: self.command_buffer,
                    image_index: self.image_index,
                }
            },
            (FrameState::Recording(RecordStep::RecordingCommands), FrameEvent::StepDone) => {
                self.state = FrameState::Submitted;
                FrameAction::SubmitWork {
                    queue: self.graphics_queue,
                    wait_semaphore: self.image_available_smph,
                    wait_stage: PipelineStage::ColorAttachmentOutput,
                    command_buffer: self.command_buffer,
                    signal_semaphore: self.render_finished_smph,
                    fence: self.in_flight_fence,
                }
            },
            (FrameState::Submitted, FrameEvent::StepDone) => {
                self.state = FrameState::Presenting;
                FrameAction::PresentImage {
                    queue: self.present_queue,
                    wait_semaphore: self.render_finished_smph,
                    swapchain: self.swap_chain.inner,
                    image_index: self.image_index,
                }
            },
            (FrameState::Presenting, FrameEvent::StepDone) => {
                self.state = FrameState::Idle;
                FrameAction::Rest
            },
            _ => {
                self.state = FrameState::Failed;
                FrameAction::Abort
            },
        }
    }

    /// The commands to record for a frame that draws to the image
    /// `image_index`.
    pub fn record_commandbuffer(&self, image_index: usize) -> (commands: Vec<Command>)
        requires
            image_index < self.swap_chain.framebuffers@.len(),
        ensures
            commands@ == self.frame_commands(image_index as int),
    {
        let mut commands: Vec<Command> = Vec::new();
        commands.push(Command::BeginCommandBuffer);
        commands.push(
            Command::BeginRenderPass {
                render_pass: self.render_pass,
                framebuffer: self.swap_chain.framebuffers[image_index],
                render_area: Rect2D { x: 0, y: 0, extent: self.swap_chain.extent },
                clear: ClearColor { red_bits: 0, green_bits: 0, blue_bits: 0, alpha_bits: 0 },
            },
        );
        commands.push(
            Command::BindPipeline { bind_point: PipelineBindPoint::Graphics, pipeline: self.pipeline },
        );
        commands.push(
            Command::Draw { vertex_count: 3, instance_count: 1, first_vertex: 0, first_instance: 0 },
        );
        commands.push(Command::EndRenderPass);
        commands.push(Command::EndCommandBuffer);
        assert(commands@ =~= self.frame_commands(image_index as int));
        commands
    }

    /// Ends the run: the device is to come to rest before anything is
    /// destroyed. The renderer itself stays as it is.
    pub fn shutdown(&mut self) -> (action: FrameAction)
        ensures
            action == FrameAction::WaitIdle,
            *final(self) == *old(self),
    {
        FrameAction::WaitIdle
    }

    /// The order in which the renderer's resources are created. The debug
    /// messenger is there only where `debug_messenger` says so.
    pub open spec fn startup(debug_messenger: bool) -> Seq<Resource> {
        seq![Resource::Instance] + (if debug_messenger {
            seq![Resource::DebugMessenger]
        } else {
            Seq::empty()
        }) + seq![
            Resource::Surface,
            Resource::Device,
            Resource::Swapchain,
            Resource::ImageViews,
            Resource::RenderPass,
            Resource::PipelineLayout,
            Resource::Pipeline,
            Resource::Framebuffers,
            Resource::CommandPool,
            Resource::CommandBuffer,
            Resource::ImageAvailableSemaphore,
            Resource::RenderFinishedSemaphore,
            Resource::InFlightFence,
        ]
    }

    /// The order in which the renderer's resources are destroyed: what
    /// synchronises frames first, then the pool with its buffer, then what
    /// draws and presents, then the device, the surface, the messenger and
    /// the instance.
    pub open spec fn teardown(debug_messenger: bool) -> Seq<Resource> {
        seq![
            Resource::ImageAvailableSemaphore,
            Resource::RenderFinishedSemaphore,
            Resource::InFlightFence,
            Resource::CommandPool,
            Resource::Pipeline,
            Resource::PipelineLayout,
            Resource::RenderPass,
            Resource::Framebuffers,
            Resource::ImageViews,
            Resource::Swapchain,
            Resource::Device,
            Resource::Surface,
        ] + (if debug_messenger {
            seq![Resource::DebugMessenger]
        } else {
            Seq::empty()
        }) + seq![Resource::Instance]
    }

    /// What to create, in order.
    pub fn startup_order(debug_messenger: bool) -> (order: Vec<Resource>)
        ensures
            order@ == Self::startup(debug_messenger),
    {
        let mut order: Vec<Resource> = Vec::new();
        order.push(Resource::Instance);
        if debug_messenger {
            order.push(Resource::DebugMessenger);
        }
        order.push(Resource::Surface);
        order.push(Resource::Device);
        order.push(Resource::Swapchain);
        order.push(Resource::ImageViews);
        order.push(Resource::RenderPass);
        order.push(Resource::PipelineLayout);
        order.push(Resource::Pipeline);
        order.push(Resource::Framebuffers);
        order.push(Resource::CommandPool);
        order.push(Resource::CommandBuffer);
        order.push(Resource::ImageAvailableSemaphore);
        order.push(Resource::RenderFinishedSemaphore);
        order.push(Resource::InFlightFence);
        assert(order@ =~= Self::startup(debug_messenger));
        order
    }

    /// What to destroy, in order. The command buffer goes with its pool.
    pub fn teardown_order(debug_messenger: bool) -> (order: Vec<Resource>)
        ensures
            order@ == Self::teardown(debug_messenger),
    {
        let mut order: Vec<Resource> = Vec::new();
        order.push(Resource::ImageAvailableSemaphore);
        order.push(Resource::RenderFinishedSemaphore);
        order.push(Resource::InFlightFence);
        order.push(Resource::CommandPool);
        order.push(Resource::Pipeline);
        order.push(Resource::PipelineLayout);
        order.push(Resource::RenderPass);
        order.push(Resource::Framebuffers);
        order.push(Resource::ImageViews);
        order.push(Resource::Swapchain);
        order.push(Resource::Device);
        order.push(Resource::Surface);
        if debug_messenger {
            order.push(Resource::DebugMessenger);
        }
        order.push(Resource::Instance);
        assert(order@ =~= Self::teardown(debug_messenger));
        order
    }
}

/// Whatever is destroyed was created before, and but for the command
/// buffer, which goes with its pool, whatever was created is destroyed.
pub proof fn lemma_teardown_matches_startup(debug_messenger: bool, resource: Resource)
    ensures
        Renderer::teardown(debug_messenger).contains(resource) <==> Renderer::startup(
            debug_messenger,
        ).contains(resource) && resource != Resource::CommandBuffer,
        Renderer::teardown(debug_messenger).no_duplicates(),
{
    let down = Renderer::teardown(debug_messenger);
    let up = Renderer::startup(debug_messenger);
    if debug_messenger {
        assert(down.len() == 14);
        assert(up.len() == 15);
        assert(down[0] == Resource::ImageAvailableSemaphore && down[1]
            == Resource::RenderFinishedSemaphore && down[2] == Resource::InFlightFence && down[3]
            == Resource::CommandPool && down[4] == Resource::Pipeline && down[5]
            == Resource::PipelineLayout && down[6] == Resource::RenderPass && down[7]
            == Resource::Framebuffers && down[8] == Resource::ImageViews && down[9]
            == Resource::Swapchain && down[10] == Resource::Device && down[11]
            == Resource::Surface && down[12] == Resource::DebugMessenger && down[13]
            == Resource::Instance);
        assert(up[0] == Resource::Instance && up[1] == Resource::DebugMessenger && up[2]
            == Resource::Surface && up[3] == Resource::Device && up[4] == Resource::Swapchain
            && up[5] == Resource::ImageViews && up[6] == Resource::RenderPass && up[7]
            == Resource::PipelineLayout && up[8] == Resource::Pipeline && up[9]
            == Resource::Framebuffers && up[10] == Resource::CommandPool && up[11]
            == Resource::CommandBuffer && up[12] == Resource::ImageAvailableSemaphore && up[13]
            == Resource::RenderFinishedSemaphore && up[14] == Resource::InFlightFence);
    } else {
        assert(down.len() == 13);
        assert(up.len() == 14);
        assert(down[0] == Resource::ImageAvailableSemaphore && down[1]
            == Resource::RenderFinishedSemaphore && down[2] == Resource::InFlightFence && down[3]
            == Resource::CommandPool && down[4] == Resource::Pipeline && down[5]
            == Resource::PipelineLayout && down[6] == Resource::RenderPass && down[7]
            == Resource::Framebuffers && down[8] == Resource::ImageViews && down[9]
            == Resource::Swapchain && down[10] == Resource::Device && down[11]
            == Resource::Surface && down[12] == Resource::Instance);
        assert(up[0] == Resource::Instance && up[1] == Resource::Surface && up[2]
            == Resource::Device && up[3] == Resource::Swapchain && up[4] == Resource::ImageViews
            && up[5] == Resource::RenderPass && up[6] == Resource::PipelineLayout && up[7]
            == Resource::Pipeline && up[8] == Resource::Framebuffers && up[9]
            == Resource::CommandPool && up[10] == Resource::CommandBuffer && up[11]
            == Resource::ImageAvailableSemaphore && up[12] == Resource::RenderFinishedSemaphore
            && up[13] == Resource::InFlightFence);
    }
}

/// A run that has failed stays failed, whatever is reported to it, and
/// asks for nothing but to give up.
pub proof fn lemma_failure_is_final(renderer: Renderer, event: FrameEvent)
    requires
        renderer.state == FrameState::Failed,
    ensures
        renderer.next_state(event) == FrameState::Failed,
        renderer.action_on_entering(renderer.next_state(event), renderer.next_image(event))
            == FrameAction::Abort,
{
}

/// A driver error ends the run from every state.
pub proof fn lemma_driver_error_is_fatal(renderer: Renderer)
    ensures
        renderer.next_state(FrameEvent::DriverError) == FrameState::Failed,
{
}

/// The renderer after it has been told of `event`.
pub open spec fn stepped(renderer: Renderer, event: FrameEvent) -> Renderer {
    Renderer {
        state: renderer.next_state(event),
        image_index: renderer.next_image(event),
        ..renderer
    }
}

/// What the renderer asks for when it is told of `event`.
pub open spec fn asked(renderer: Renderer, event: FrameEvent) -> FrameAction {
    renderer.action_on_entering(renderer.next_state(event), renderer.next_image(event))
}

/// A frame that nothing disturbs takes eight steps from rest to rest: it
/// waits for the fence, resets it, acquires an image, resets the command
/// buffer, records for the acquired image, submits, and presents the
/// acquired image.
pub proof fn lemma_frame_cycle(idle: Renderer, image: u32)
    requires
        idle.wf(),
        idle.state == FrameState::Idle,
        image < idle.swap_chain.framebuffers@.len(),
    ensures
        ({
            let waiting = stepped(idle, FrameEvent::RedrawRequested);
            let resetting = stepped(waiting, FrameEvent::StepDone);
            let acquiring = stepped(resetting, FrameEvent::StepDone);
            let clearing = stepped(acquiring, FrameEvent::ImageAcquired(image));
            let recording = stepped(clearing, FrameEvent::StepDone);
            let submitted = stepped(recording, FrameEvent::StepDone);
            let presenting = stepped(submitted, FrameEvent::StepDone);
            let rested = stepped(presenting, FrameEvent::StepDone);
            &&& asked(idle, FrameEvent::RedrawRequested) == (FrameAction::WaitForFence {
                fence: idle.in_flight_fence,
                timeout: u64::MAX,
            })
            &&& asked(waiting, FrameEvent::StepDone) == (FrameAction::ResetFence {
                fence: idle.in_flight_fence,
            })
            &&& asked(resetting, FrameEvent::StepDone) == (FrameAction::AcquireImage {
                swapchain: idle.swap_chain.inner,
                timeout: u64::MAX,
                signal_semaphore: idle.image_available_smph,
            })
            &&& asked(acquiring, FrameEvent::ImageAcquired(image))
                == (FrameAction::ResetCommandBuffer { command_buffer: idle.command_buffer })
            &&& asked(clearing, FrameEvent::StepDone) == (FrameAction::RecordCommands {
                command_buffer: idle.command_buffer,
                image_index: image,
            })
            &&& asked(recording, FrameEvent::StepDone) == (FrameAction::SubmitWork {
                queue: idle.graphics_queue,
                wait_semaphore: idle.image_available_smph,
                wait_stage: PipelineStage::ColorAttachmentOutput,
                command_buffer: idle.command_buffer,
                signal_semaphore: idle.render_finished_smph,
                fence: idle.in_flight_fence,
            })
            &&& asked(submitted, FrameEvent::StepDone) == (FrameAction::PresentImage {
                queue: idle.present_queue,
                wait_semaphore: idle.render_finished_smph,
                swapchain: idle.swap_chain.inner,
                image_index: image,
            })
            &&& asked(presenting, FrameEvent::StepDone) == FrameAction::Rest
            &&& rested.state == FrameState::Idle
            &&& rested.wf()
        }),
{
}

} // verus!
