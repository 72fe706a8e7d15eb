use life_grid::buffers::{binding_pair, binding_set, render_source};
use life_grid::grid::GridDimensions;
use life_grid::schedule::{
    frame_plan, next_deadline, FramePlan, FrameScheduler, SchedulerAction, SchedulerEvent,
    UPDATE_INTERVAL_MS,
};

#[test]
fn binding_sets_never_alias() {
    let a = binding_set(0);
    let b = binding_set(1);
    assert_eq!((a.input, a.output), (0, 1));
    assert_eq!((b.input, b.output), (1, 0));
    let (p0, p1) = binding_pair();
    assert_eq!(p0, a);
    assert_eq!(p1, b);
    assert_eq!(render_source(0), 0);
    assert_eq!(render_source(1), 1);
}

#[test]
fn plan_of_square_grid() {
    let g = GridDimensions::square();
    let p = frame_plan(&g, 0);
    assert_eq!(
        p,
        FramePlan {
            dispatch_group: 0,
            render_group: 1,
            workgroups_x: 4,
            workgroups_y: 4,
            vertex_count: 6,
            instance_count: 1024,
        }
    );
    let q = frame_plan(&g, 1);
    assert_eq!((q.dispatch_group, q.render_group), (1, 0));
}

#[test]
fn deadlines() {
    assert_eq!(UPDATE_INTERVAL_MS, 200);
    assert_eq!(next_deadline(1000), 1200);
    assert_eq!(next_deadline(u64::MAX - 10), u64::MAX);
    assert_eq!(next_deadline(u64::MAX - 200), u64::MAX);
}

#[test]
fn start_sets_first_deadline() {
    let mut s = FrameScheduler::new(GridDimensions::square());
    let a = s.on_event(SchedulerEvent::Started { now_ms: 50 });
    assert_eq!(a, SchedulerAction::Wait { until_ms: 250 });
    assert_eq!(s.parity(), 0);
    assert!(s.is_running());
    assert_eq!(s.on_event(SchedulerEvent::Other), SchedulerAction::Nothing);
    assert_eq!(s.parity(), 0);
}

#[test]
fn ticks_alternate_binding_sets() {
    let mut s = FrameScheduler::new(GridDimensions::square());
    s.on_event(SchedulerEvent::Started { now_ms: 0 });
    let mut last_output: Option<usize> = None;
    for n in 1..=10u64 {
        let before = s.parity();
        let a = s.on_event(SchedulerEvent::TimerElapsed { now_ms: n * 200 });
        match a {
            SchedulerAction::Frame { plan, until_ms } => {
                assert_eq!(plan.dispatch_group, before);
                assert_eq!(plan.render_group, 1 - before);
                assert_eq!(until_ms, n * 200 + 200);
                // The draw reads what this tick's dispatch wrote.
                assert_eq!(plan.render_group, binding_set(plan.dispatch_group).output);
                // The dispatch reads what the previous tick's dispatch wrote.
                if let Some(o) = last_output {
                    assert_eq!(plan.dispatch_group, o);
                }
                last_output = Some(binding_set(plan.dispatch_group).output);
            }
            other => panic!("expected a frame, got {:?}", other),
        }
        assert_eq!(s.parity() as u64, n % 2);
    }
}

#[test]
fn close_stops_the_scheduler() {
    let mut s = FrameScheduler::new(GridDimensions::square());
    s.on_event(SchedulerEvent::TimerElapsed { now_ms: 0 });
    assert_eq!(s.parity(), 1);
    assert_eq!(s.on_event(SchedulerEvent::CloseRequested), SchedulerAction::Exit);
    assert!(!s.is_running());
    assert_eq!(s.parity(), 1);
    assert_eq!(
        s.on_event(SchedulerEvent::TimerElapsed { now_ms: 400 }),
        SchedulerAction::Exit
    );
    assert_eq!(s.parity(), 1);
}
