use std::sync::atomic::{AtomicUsize, Ordering};
use std::sync::{Arc, Mutex};
use std::time::Duration;

use mc_server_status::semaphore_manager::SemaphoreManager;

#[test]
fn limiter_capacity_and_resize() {
    let mut m = SemaphoreManager::new(5);
    assert_eq!(m.size(), 5);
    assert_eq!(m.semaphore().available_permits(), 5);
    m.update_size(2);
    assert_eq!(m.size(), 2);
    assert_eq!(m.semaphore().available_permits(), 2);
}

fn burst(capacity: usize, tasks: usize, delay_ms: u64) -> (usize, Vec<(usize, &'static str)>) {
    let rt = tokio::runtime::Builder::new_multi_thread()
        .worker_threads(4)
        .enable_time()
        .build()
        .unwrap();
    let manager = SemaphoreManager::new(capacity);
    let holding = Arc::new(AtomicUsize::new(0));
    let peak = Arc::new(AtomicUsize::new(0));
    let log = Arc::new(Mutex::new(Vec::new()));
    rt.block_on(async {
        let mut handles = Vec::new();
        for id in 1..=tasks {
            let semaphore = manager.semaphore();
            let holding = holding.clone();
            let peak = peak.clone();
            let log = log.clone();
            handles.push(tokio::spawn(async move {
                let _permit = semaphore.acquire().await.unwrap();
                let now = holding.fetch_add(1, Ordering::SeqCst) + 1;
                peak.fetch_max(now, Ordering::SeqCst);
                log.lock().unwrap().push((id, "start"));
                tokio::time::sleep(Duration::from_millis(delay_ms)).await;
                log.lock().unwrap().push((id, "end"));
                holding.fetch_sub(1, Ordering::SeqCst);
            }));
            tokio::time::sleep(Duration::from_millis(5)).await;
        }
        for h in handles {
            h.await.unwrap();
        }
    });
    let log = log.lock().unwrap().clone();
    (peak.load(Ordering::SeqCst), log)
}

#[test]
fn permits_held_never_exceed_capacity() {
    for capacity in 1..=4 {
        let (peak, _) = burst(capacity, 8, 20);
        assert!(peak <= capacity);
        assert!(peak >= 1);
    }
}

#[test]
fn third_probe_waits_for_a_permit() {
    let (peak, log) = burst(2, 3, 100);
    assert_eq!(peak, 2);
    let start3 = log.iter().position(|e| *e == (3, "start")).unwrap();
    let first_end = log.iter().position(|e| e.1 == "end").unwrap();
    assert!(first_end < start3);
    assert!(log[first_end].0 == 1 || log[first_end].0 == 2);
}
