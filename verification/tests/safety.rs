use tpt_chassis::autonomy::{
    AutonomyStack, LaneKeepingStack, SensorKind, SensorSample, VehicleState,
};
use tpt_chassis::safety::{Interlock, InterlockState, TelemetryRecord, TelemetryRing};

#[test]
fn disarmed_interlock_suppresses_commands() {
    let mut stack = LaneKeepingStack::new(10, 1000);
    stack
        .ingest(SensorSample {
            kind: SensorKind::Camera,
            timestamp: 1,
            value: 20,
        })
        .unwrap();
    let mut interlock = Interlock::new(stack);
    assert!(!interlock.has_control());
    let cmd = interlock
        .next_command(VehicleState {
            speed_cmps: 0,
            timestamp: 1,
        })
        .unwrap();
    assert!(cmd.is_none());
}

#[test]
fn armed_interlock_passes_commands() {
    let mut stack = LaneKeepingStack::new(10, 1000);
    stack
        .ingest(SensorSample {
            kind: SensorKind::Camera,
            timestamp: 1,
            value: 20,
        })
        .unwrap();
    let mut interlock = Interlock::new(stack);
    interlock.arm();
    assert!(interlock.has_control());
    let cmd = interlock
        .next_command(VehicleState {
            speed_cmps: 0,
            timestamp: 1,
        })
        .unwrap()
        .unwrap();
    assert_eq!(cmd.steer_deci_deg, 200);
}

#[test]
fn disarm_after_arm_cuts_authority() {
    let mut stack = LaneKeepingStack::new(10, 1000);
    stack
        .ingest(SensorSample {
            kind: SensorKind::Camera,
            timestamp: 1,
            value: 5,
        })
        .unwrap();
    let mut interlock = Interlock::new(stack);
    interlock.arm();
    assert!(interlock.has_control());
    interlock.disarm();
    assert!(!interlock.has_control());
    assert!(interlock
        .next_command(VehicleState {
            speed_cmps: 0,
            timestamp: 1
        })
        .unwrap()
        .is_none());
}

#[test]
fn telemetry_ring_overwrites_oldest() {
    let mut ring: TelemetryRing<4> = TelemetryRing::new();
    for i in 0..6u32 {
        ring.push(TelemetryRecord {
            timestamp: i,
            code: 1,
            value: i,
        });
    }
    assert_eq!(ring.len(), 4);
    // Oldest surviving record is the one written at i=2.
    let mut values = [0u32; 4];
    for (i, r) in ring.iter().iter().enumerate() {
        values[i] = r.value;
    }
    assert_eq!(values, [2, 3, 4, 5]);
}

#[test]
fn interlock_starts_disarmed_and_reports_state() {
    let mut interlock = Interlock::new(LaneKeepingStack::new(10, 1000));
    assert_eq!(interlock.state(), InterlockState::Disarmed);
    interlock.arm();
    assert_eq!(interlock.state(), InterlockState::Armed);
    // Armed, but the stack has no lane data yet: no control, no command.
    assert!(!interlock.has_control());
    assert_eq!(
        interlock.next_command(VehicleState {
            speed_cmps: 0,
            timestamp: 0
        }),
        Ok(None)
    );
    // Samples reach the stack even while disarmed.
    interlock.disarm();
    interlock
        .ingest(SensorSample {
            kind: SensorKind::Lidar,
            timestamp: 3,
            value: -4,
        })
        .unwrap();
    interlock.arm();
    let cmd = interlock
        .next_command(VehicleState {
            speed_cmps: 1000,
            timestamp: 3,
        })
        .unwrap()
        .unwrap();
    assert_eq!(cmd.steer_deci_deg, -40);
}

#[test]
fn interlock_is_itself_an_autonomy_stack() {
    fn drive<S: AutonomyStack>(s: &mut S) -> bool {
        let _ = s.next_command(VehicleState {
            speed_cmps: 0,
            timestamp: 0,
        });
        s.has_control()
    }
    let mut stack = LaneKeepingStack::new(10, 1000);
    stack
        .ingest(SensorSample {
            kind: SensorKind::Camera,
            timestamp: 1,
            value: 1,
        })
        .unwrap();
    let mut interlock = Interlock::new(stack);
    assert!(!drive(&mut interlock));
    interlock.arm();
    assert!(drive(&mut interlock));
}

#[test]
fn telemetry_ring_before_and_after_filling() {
    let mut ring: TelemetryRing<3> = TelemetryRing::default();
    assert!(ring.is_empty());
    assert_eq!(ring.iter(), vec![]);
    let rec = |v: u32| TelemetryRecord {
        timestamp: v * 10,
        code: 7,
        value: v,
    };
    ring.push(rec(1));
    ring.push(rec(2));
    assert_eq!(ring.len(), 2);
    assert_eq!(ring.iter(), vec![rec(1), rec(2)]);
    ring.push(rec(3));
    assert_eq!(ring.iter(), vec![rec(1), rec(2), rec(3)]);
    ring.push(rec(4));
    assert_eq!(ring.iter(), vec![rec(2), rec(3), rec(4)]);
    for v in 5..=11 {
        ring.push(rec(v));
    }
    assert_eq!(ring.len(), 3);
    assert!(!ring.is_empty());
    assert_eq!(ring.iter(), vec![rec(9), rec(10), rec(11)]);
}
