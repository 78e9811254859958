use std::collections::VecDeque;

use bevy_xr::audio::{try_play_queued, AudioCommand};
use bevy_xr::plugins::{DrawGraph, MainPassDriverNode, SubGraphRun};

fn command(source: u64, sink: u64, spatial: bool) -> AudioCommand<f32> {
    AudioCommand {
        source_handle: source,
        sink_handle: sink,
        repeat: false,
        spatial,
        speed: 1.0,
        volume: 0.5,
    }
}

#[test]
fn loaded_sources_play_and_the_rest_wait() {
    let mut queue: VecDeque<AudioCommand<f32>> = VecDeque::new();
    queue.push_back(command(1, 10, false));
    queue.push_back(command(2, 20, true));
    queue.push_back(command(3, 30, false));
    queue.push_back(command(1, 11, true));
    let loaded = vec![1, 3];
    let played = try_play_queued(&mut queue, &loaded);
    assert_eq!(played.len(), 3);
    assert_eq!(played[0].sink_handle, 10);
    assert_eq!(played[1].sink_handle, 30);
    assert_eq!(played[2].sink_handle, 11);
    assert!(played[2].spatial);
    assert_eq!(queue.len(), 1);
    assert_eq!(queue[0].sink_handle, 20);
}

#[test]
fn an_unloaded_queue_waits_in_order() {
    let mut queue: VecDeque<AudioCommand<f32>> = VecDeque::new();
    queue.push_back(command(5, 50, false));
    queue.push_back(command(6, 60, false));
    let played = try_play_queued(&mut queue, &Vec::new());
    assert!(played.is_empty());
    assert_eq!(queue.len(), 2);
    assert_eq!(queue[0].sink_handle, 50);
    assert_eq!(queue[1].sink_handle, 60);
}

#[test]
fn an_empty_queue_stays_empty() {
    let mut queue: VecDeque<AudioCommand<f32>> = VecDeque::new();
    let played = try_play_queued(&mut queue, &vec![1]);
    assert!(played.is_empty());
    assert!(queue.is_empty());
}

#[test]
fn the_main_pass_runs_cameras_in_order() {
    let node = MainPassDriverNode;
    let runs = node.main_pass_runs(Some(1), Some(2), Some(3), Some(4));
    assert_eq!(
        runs,
        vec![
            SubGraphRun { graph: DrawGraph::Draw3d, camera: 1 },
            SubGraphRun { graph: DrawGraph::Draw2d, camera: 2 },
            SubGraphRun { graph: DrawGraph::Draw3d, camera: 3 },
            SubGraphRun { graph: DrawGraph::Draw3d, camera: 4 },
        ]
    );
}

#[test]
fn absent_cameras_contribute_no_pass() {
    let node = MainPassDriverNode;
    let runs = node.main_pass_runs(None, Some(2), None, Some(4));
    assert_eq!(
        runs,
        vec![
            SubGraphRun { graph: DrawGraph::Draw2d, camera: 2 },
            SubGraphRun { graph: DrawGraph::Draw3d, camera: 4 },
        ]
    );
}
