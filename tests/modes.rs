use dspkit::{AudioNode, FreeverbMode, Process};

#[test]
fn mode_from_even_is_active() {
    assert_eq!(FreeverbMode::from(0u16), FreeverbMode::Active);
    assert_eq!(FreeverbMode::from(2u16), FreeverbMode::Active);
    assert_eq!(FreeverbMode::from(65534u16), FreeverbMode::Active);
}

#[test]
fn mode_from_odd_is_frozen() {
    assert_eq!(FreeverbMode::from(1u16), FreeverbMode::Frozen);
    assert_eq!(FreeverbMode::from(3u16), FreeverbMode::Frozen);
    assert_eq!(FreeverbMode::from(65535u16), FreeverbMode::Frozen);
}

struct Accumulate {
    total: i64,
}

impl Process<i64, i64> for Accumulate {
    fn process_out(&self, input: i64) -> i64 {
        self.total + input
    }

    fn process_next(&self, input: i64) -> Self {
        Accumulate { total: self.total + input }
    }

    fn process(&mut self, input: &i64) -> i64 {
        self.total += *input;
        self.total
    }
}

impl AudioNode<i64, i64> for Accumulate {
    fn tick_out(&self, input: i64) -> i64 {
        self.total + input
    }

    fn tick_next(&self, input: i64) -> Self {
        Accumulate { total: self.total + input }
    }

    fn tick(&mut self, input: &i64) -> i64 {
        self.total += *input;
        self.total
    }
}

#[test]
fn process_batch_is_element_wise_in_order() {
    let mut node = Accumulate { total: 0 };
    let input = [1i64, 2, 3];
    let mut output = [0i64; 5];
    output[4] = -9;
    Process::batch(&mut node, &input, &mut output);
    assert_eq!(output, [1, 3, 6, 0, -9]);
}

#[test]
fn audio_node_batch_is_element_wise_in_order() {
    let mut node = Accumulate { total: 10 };
    let input = [1i64, -1];
    let mut output = [7i64; 2];
    AudioNode::prepare(&mut node, 44_100);
    AudioNode::batch(&mut node, &input, &mut output);
    assert_eq!(output, [11, 10]);
}
