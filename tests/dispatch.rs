use gpu_dispatch::channels::{complete, delivery_outcome, GpuTask, JobError, JobOutcome, GPU};
use gpu_dispatch::execution::{ExecutionLoop, LoopAction, LoopEvent, Phase};
use gpu_dispatch::kernel::{kernel_plan, Binding, BufferSource, BufferUsage, PlanError};
use gpu_dispatch::worker::{GpuWork, Vec3};
use tokio::sync::oneshot::error::TryRecvError;

fn work_u32(inputs: Vec<Vec<u32>>, out_len: u64) -> GpuWork<u32> {
    GpuWork {
        file_name: String::from("shaders/double.wgsl"),
        work_data: inputs,
        out_data_len: out_len,
        work_size: Vec3::default(),
    }
}

#[test]
fn launch_shape_defaults_to_widest_x() {
    let v = Vec3::default();
    assert_eq!((v.x, v.y, v.z), (65535, 1, 1));
}

#[test]
fn plan_binds_inputs_in_order_then_output() {
    let work = work_u32(vec![vec![1, 2, 3], vec![4, 5, 6]], 3);
    let plan = kernel_plan(&work).unwrap();
    assert_eq!(
        plan.bindings,
        vec![
            Binding { source: BufferSource::Input(0), usage: BufferUsage::ReadOnly },
            Binding { source: BufferSource::Input(1), usage: BufferUsage::ReadOnly },
            Binding { source: BufferSource::Output, usage: BufferUsage::ReadWrite },
        ]
    );
    assert_eq!(plan.entry_point, "main");
    assert_eq!(plan.output_len, 3);
    assert_eq!(plan.output_bytes, 12);
    assert_eq!(plan.groups, (65535, 1, 1));
}

#[test]
fn plan_without_inputs_binds_only_the_output() {
    let work = work_u32(vec![], 10);
    let plan = kernel_plan(&work).unwrap();
    assert_eq!(
        plan.bindings,
        vec![Binding { source: BufferSource::Output, usage: BufferUsage::ReadWrite }]
    );
}

#[test]
fn plan_sizes_output_by_element_width() {
    let work: GpuWork<u64> = GpuWork {
        file_name: String::from("p.wgsl"),
        work_data: vec![vec![7u64; 4]],
        out_data_len: 10000,
        work_size: Vec3 { x: 100, y: 2, z: 3 },
    };
    let plan = kernel_plan(&work).unwrap();
    assert_eq!(plan.output_bytes, 80000);
    assert_eq!(plan.groups, (100, 2, 3));
}

#[test]
fn plan_refuses_an_output_too_large_to_address() {
    let work = work_u32(vec![vec![1]], u64::MAX / 2);
    assert_eq!(kernel_plan(&work).unwrap_err(), PlanError::OutputTooLarge);
    let fits = work_u32(vec![vec![1]], u64::MAX / 4);
    assert_eq!(kernel_plan(&fits).unwrap().output_bytes, u64::MAX / 4 * 4);
}

#[test]
fn result_reaches_its_producer() {
    let (task, mut rx) = GpuTask::new(work_u32(vec![(0..10000).collect()], 10000));
    let doubled: Vec<u32> = (0..10000).map(|x| x * 2).collect();
    assert_eq!(complete(task, Ok(doubled.clone())), JobOutcome::Delivered);
    assert_eq!(rx.try_recv().unwrap(), doubled);
}

#[test]
fn two_jobs_each_get_their_own_result() {
    let (task_a, mut rx_a) = GpuTask::new(work_u32(vec![(0..100).collect()], 100));
    let (task_b, mut rx_b) = GpuTask::new(work_u32(vec![(1..26).collect()], 25));
    let a: Vec<u32> = (0..100).map(|x| x * 1024).collect();
    let b: Vec<u32> = vec![
        0, 1, 7, 2, 5, 8, 16, 3, 19, 6, 14, 9, 9, 17, 17, 4, 12, 20, 20, 7, 7, 15, 15, 10, 23,
    ];
    assert_eq!(complete(task_b, Ok(b.clone())), JobOutcome::Delivered);
    assert_eq!(complete(task_a, Ok(a.clone())), JobOutcome::Delivered);
    assert_eq!(rx_a.try_recv().unwrap(), a);
    assert_eq!(rx_b.try_recv().unwrap(), b);
}

#[test]
fn abandoned_receiver_discards_the_result() {
    let (task, rx) = GpuTask::new(work_u32(vec![vec![1, 2]], 2));
    drop(rx);
    assert_eq!(complete(task, Ok(vec![2, 4])), JobOutcome::ReceiverGone);
}

#[test]
fn failed_job_closes_its_handle() {
    let (task, mut rx) = GpuTask::new(work_u32(vec![vec![1]], 1));
    assert_eq!(
        complete(task, Err(JobError::ProgramLoad)),
        JobOutcome::Failed(JobError::ProgramLoad)
    );
    assert_eq!(rx.try_recv(), Err(TryRecvError::Closed));
    let (task, _rx) = GpuTask::new(work_u32(vec![vec![1]], 1));
    assert_eq!(complete(task, Err(JobError::Device)), JobOutcome::Failed(JobError::Device));
    let (task, _rx) = GpuTask::new(work_u32(vec![vec![1]], 1));
    let e = JobError::Plan(PlanError::OutputTooLarge);
    assert_eq!(complete(task, Err(e)), JobOutcome::Failed(e));
}

#[test]
fn delivery_outcome_follows_send() {
    assert_eq!(delivery_outcome::<Vec<u8>>(Ok(())), JobOutcome::Delivered);
    assert_eq!(delivery_outcome(Err(vec![1u8])), JobOutcome::ReceiverGone);
}

#[test]
fn envelope_carries_its_job() {
    let (task, _rx) = GpuTask::new(work_u32(vec![vec![9, 8]], 2));
    let env = GPU::GpuU32(task);
    match env {
        GPU::GpuU32(t) => assert_eq!(t.data.work_data, vec![vec![9, 8]]),
        _ => panic!("wrong arm"),
    }
}

#[test]
fn jobs_start_in_the_order_received() {
    let mut lp = ExecutionLoop::new();
    let mut tickets = Vec::new();
    for _ in 0..5 {
        match lp.step(LoopEvent::Received) {
            LoopAction::Run { ticket } => tickets.push(ticket),
            other => panic!("unexpected {:?}", other),
        }
        assert_eq!(lp.step(LoopEvent::Finished(JobOutcome::Delivered)), LoopAction::AwaitNext);
    }
    assert_eq!(tickets, vec![0, 1, 2, 3, 4]);
    assert_eq!(lp.started, 5);
    assert_eq!(lp.delivered, 5);
}

#[test]
fn running_job_is_not_preempted() {
    let mut lp = ExecutionLoop::new();
    assert_eq!(lp.step(LoopEvent::Received), LoopAction::Run { ticket: 0 });
    let before = lp;
    assert_eq!(lp.step(LoopEvent::Received), LoopAction::Ignore);
    assert_eq!(lp.step(LoopEvent::ChannelClosed), LoopAction::Ignore);
    assert_eq!(lp, before);
    assert_eq!(lp.phase, Phase::Executing);
}

#[test]
fn bad_program_does_not_stop_the_loop() {
    let mut lp = ExecutionLoop::new();
    assert_eq!(lp.step(LoopEvent::Received), LoopAction::Run { ticket: 0 });
    let failed = LoopEvent::Finished(JobOutcome::Failed(JobError::ProgramLoad));
    assert_eq!(lp.step(failed), LoopAction::AwaitNext);
    assert_eq!(lp.phase, Phase::Idle);
    assert_eq!(lp.failed, 1);
    assert_eq!(lp.step(LoopEvent::Received), LoopAction::Run { ticket: 1 });
    assert_eq!(lp.step(LoopEvent::Finished(JobOutcome::Delivered)), LoopAction::AwaitNext);
    assert_eq!(lp.delivered, 1);
}

#[test]
fn abandoned_result_is_counted_and_loop_goes_on() {
    let mut lp = ExecutionLoop::new();
    lp.step(LoopEvent::Received);
    assert_eq!(lp.step(LoopEvent::Finished(JobOutcome::ReceiverGone)), LoopAction::AwaitNext);
    assert_eq!(lp.abandoned, 1);
    assert_eq!(lp.step(LoopEvent::Received), LoopAction::Run { ticket: 1 });
}

#[test]
fn loop_exits_only_when_idle_and_closed() {
    let mut lp = ExecutionLoop::new();
    assert_eq!(lp.step(LoopEvent::Finished(JobOutcome::Delivered)), LoopAction::Ignore);
    assert_eq!(lp.step(LoopEvent::ChannelClosed), LoopAction::Exit);
    assert_eq!(lp.phase, Phase::Stopped);
    assert_eq!(lp.step(LoopEvent::Received), LoopAction::Ignore);
    assert_eq!(lp.started, 0);
}

#[test]
fn counters_stop_at_the_largest_value() {
    let mut lp = ExecutionLoop::new();
    lp.started = u64::MAX;
    lp.failed = u64::MAX;
    assert_eq!(lp.step(LoopEvent::Received), LoopAction::Run { ticket: u64::MAX });
    assert_eq!(lp.started, u64::MAX);
    lp.step(LoopEvent::Finished(JobOutcome::Failed(JobError::Device)));
    assert_eq!(lp.failed, u64::MAX);
}
