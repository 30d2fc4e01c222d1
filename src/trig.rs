//! Sine and cosine of angles in tenths of a degree, in billionths (rounded
//! toward zero).
use vstd::prelude::*;

verus! {

/// The unit of the tables: 1.0 is `UNIT`.
pub const UNIT: i64 = 1_000_000_000;

/// `sin(d / 10 °) * UNIT`, rounded toward zero, for `0 <= d <= 900`.
#[verifier::opaque]
pub open spec fn sine_spec(d: u64) -> int {
    if d < 450 {
        if d < 225 {
            if d < 112 {
                if d < 56 {
                    if d < 28 {
                        if d < 14 {
                            if d < 7 {
                                if d < 3 {
                                    if d < 1 {
                                        0
                                    } else {
                                        if d < 2 {
                                            1745328
                                        } else {
                                            3490651
                                        }
                                    }
                                } else {
                                    if d < 5 {
                                        if d < 4 {
                                            5235963
                                        } else {
                                            6981260
                                        }
                                    } else {
                                        if d < 6 {
                                            8726535
                                        } else {
                                            10471784
                                        }
                                    }
                                }
                            } else {
                                if d < 10 {
                                    if d < 8 {
                                        12217000
                                    } else {
                                        if d < 9 {
                                            13962180
                                        } else {
                                            15707317
                                        }
                                    }
                                } else {
                                    if d < 12 {
                                        if d < 11 {
                                            17452406
                                        } else {
                                            19197442
                                        }
                                    } else {
                                        if d < 13 {
                                            20942419
                                        } else {
                                            22687333
                                        }
                                    }
                                }
                            }
                        } else {
                            if d < 21 {
                                if d < 17 {
                                    if d < 15 {
                                        24432178
                                    } else {
                                        if d < 16 {
                                            26176948
                                        } else {
                                            27921638
                                        }
                                    }
                                } else {
                                    if d < 19 {
                                        if d < 18 {
                                            29666244
                                        } else {
                                            31410759
                                        }
                                    } else {
                                        if d < 20 {
                                            33155178
                                        } else {
                                            34899496
                                        }
                                    }
                                }
                            } else {
                                if d < 24 {
                                    if d < 22 {
                                        36643708
                                    } else {
                                        if d < 23 {
                                            38387809
                                        } else {
                                            40131792
                                        }
                                    }
                                } else {
                                    if d < 26 {
                                        if d < 25 {
                                            41875653
                                        } else {
                                            43619387
                                        }
                                    } else {
                                        if d < 27 {
                                            45362988
                                        } else {
                                            47106450
                                        }
                                    }
                                }
                            }
                        }
                    } else {
                        if d < 42 {
                            if d < 35 {
                                if d < 31 {
                                    if d < 29 {
                                        48849769
                                    } else {
                                        if d < 30 {
                                            50592940
                                        } else {
                                            52335956
                                        }
                                    }
                                } else {
                                    if d < 33 {
                                        if d < 32 {
                                            54078812
                                        } else {
                                            55821504
                                        }
                                    } else {
                                        if d < 34 {
                                            57564026
                                        } else {
                                            59306373
                                        }
                                    }
                                }
                            } else {
                                if d < 38 {
                                    if d < 36 {
                                        61048539
                                    } else {
                                        if d < 37 {
                                            62790519
                                        } else {
                                            64532308
                                        }
                                    }
                                } else {
                                    if d < 40 {
                                        if d < 39 {
                                            66273900
                                        } else {
                                            68015290
                                        }
                                    } else {
                                        if d < 41 {
                                            69756473
                                        } else {
                                            71497444
                                        }
                                    }
                                }
                            }
                        } else {
                            if d < 49 {
                                if d < 45 {
                                    if d < 43 {
                                        73238197
                                    } else {
                                        if d < 44 {
                                            74978726
                                        } else {
                                            76719028
                                        }
                                    }
                                } else {
                                    if d < 47 {
                                        if d < 46 {
                                            78459095
                                        } else {
                                            80198924
                                        }
                                    } else {
                                        if d < 48 {
                                            81938508
                                        } else {
                                            83677843
                                        }
                                    }
                                }
                            } else {
                                if d < 52 {
                                    if d < 50 {
                                        85416923
                                    } else {
                                        if d < 51 {
                                            87155742
                                        } else {
                                            88894296
                                        }
                                    }
                                } else {
                                    if d < 54 {
                                        if d < 53 {
                                            90632580
                                        } else {
                                            92370587
                                        }
                                    } else {
                                        if d < 55 {
                                            94108313
                                        } else {
                                            95845752
                                        }
                                    }
                                }
                            }
                        }
                    }
                } else {
                    if d < 84 {
                        if d < 70 {
                            if d < 63 {
                                if d < 59 {
                                    if d < 57 {
                                        97582899
                                    } else {
                                        if d < 58 {
                                            99319749
                                        } else {
                                            101056297
                                        }
                                    }
                                } else {
                                    if d < 61 {
                                        if d < 60 {
                                            102792536
                                        } else {
                                            104528463
                                        }
                                    } else {
                                        if d < 62 {
                                            106264071
                                        } else {
                                            107999355
                                        }
                                    }
                                }
                            } else {
                                if d < 66 {
                                    if d < 64 {
                                        109734311
                                    } else {
                                        if d < 65 {
                                            111468932
                                        } else {
                                            113203213
                                        }
                                    }
                                } else {
                                    if d < 68 {
                                        if d < 67 {
                                            114937150
                                        } else {
                                            116670737
                                        }
                                    } else {
                                        if d < 69 {
                                            118403968
                                        } else {
                                            120136838
                                        }
                                    }
                                }
                            }
                        } else {
                            if d < 77 {
                                if d < 73 {
                                    if d < 71 {
                                        121869343
                                    } else {
                                        if d < 72 {
                                            123601476
                                        } else {
                                            125333233
                                        }
                                    }
                                } else {
                                    if d < 75 {
                                        if d < 74 {
                                            127064608
                                        } else {
                                            128795596
                                        }
                                    } else {
                                        if d < 76 {
                                            130526192
                                        } else {
                                            132256390
                                        }
                                    }
                                }
                            } else {
                                if d < 80 {
                                    if d < 78 {
                                        133986185
                                    } else {
                                        if d < 79 {
                                            135715572
                                        } else {
                                            137444546
                                        }
                                    }
                                } else {
                                    if d < 82 {
                                        if d < 81 {
                                            139173100
                                        } else {
                                            140901231
                                        }
                                    } else {
                                        if d < 83 {
                                            142628933
                                        } else {
                                            144356201
                                        }
                                    }
                                }
                            }
                        }
                    } else {
                        if d < 98 {
                            if d < 91 {
                                if d < 87 {
                                    if d < 85 {
                                        146083028
                                    } else {
                                        if d < 86 {
                                            147809411
                                        } else {
                                            149535343
                                        }
                                    }
                                } else {
                                    if d < 89 {
                                        if d < 88 {
                                            151260820
                                        } else {
                                            152985836
                                        }
                                    } else {
                                        if d < 90 {
                                            154710386
                                        } else {
                                            156434465
                                        }
                                    }
                                }
                            } else {
                                if d < 94 {
                                    if d < 92 {
                                        158158067
                                    } else {
                                        if d < 93 {
                                            159881187
                                        } else {
                                            161603821
                                        }
                                    }
                                } else {
                                    if d < 96 {
                                        if d < 95 {
                                            163325962
                                        } else {
                                            165047605
                                        }
                                    } else {
                                        if d < 97 {
                                            166768746
                                        } else {
                                            168489379
                                        }
                                    }
                                }
                            }
                        } else {
                            if d < 105 {
                                if d < 101 {
                                    if d < 99 {
                                        170209499
                                    } else {
                                        if d < 100 {
                                            171929100
                                        } else {
                                            173648177
                                        }
                                    }
                                } else {
                                    if d < 103 {
                                        if d < 102 {
                                            175366726
                                        } else {
                                            177084740
                                        }
                                    } else {
                                        if d < 104 {
                                            178802215
                                        } else {
                                            180519145
                                        }
                                    }
                                }
                            } else {
                                if d < 108 {
                                    if d < 106 {
                                        182235525
                                    } else {
                                        if d < 107 {
                                            183951350
                                        } else {
                                            185666615
                                        }
                                    }
                                } else {
                                    if d < 110 {
                                        if d < 109 {
                                            187381314
                                        } else {
                                            189095442
                                        }
                                    } else {
                                        if d < 111 {
                                            190808995
                                        } else {
                                            192521966
                                        }
                                    }
                                }
                            }
                        }
                    }
                }
            } else {
                if d < 168 {
                    if d < 140 {
                        if d < 126 {
                            if d < 119 {
                                if d < 115 {
                                    if d < 113 {
                                        194234351
                                    } else {
                                        if d < 114 {
                                            195946144
                                        } else {
                                            197657340
                                        }
                                    }
                                } else {
                                    if d < 117 {
                                        if d < 116 {
                                            199367934
                                        } else {
                                            201077921
                                        }
                                    } else {
                                        if d < 118 {
                                            202787295
                                        } else {
                                            204496051
                                        }
                                    }
                                }
                            } else {
                                if d < 122 {
                                    if d < 120 {
                                        206204185
                                    } else {
                                        if d < 121 {
                                            207911690
                                        } else {
                                            209618562
                                        }
                                    }
                                } else {
                                    if d < 124 {
                                        if d < 123 {
                                            211324796
                                        } else {
                                            213030386
                                        }
                                    } else {
                                        if d < 125 {
                                            214735327
                                        } else {
                                            216439613
                                        }
                                    }
                                }
                            }
                        } else {
                            if d < 133 {
                                if d < 129 {
                                    if d < 127 {
                                        218143241
                                    } else {
                                        if d < 128 {
                                            219846204
                                        } else {
                                            221548497
                                        }
                                    }
                                } else {
                                    if d < 131 {
                                        if d < 130 {
                                            223250116
                                        } else {
                                            224951054
                                        }
                                    } else {
                                        if d < 132 {
                                            226651307
                                        } else {
                                            228350870
                                        }
                                    }
                                }
                            } else {
                                if d < 136 {
                                    if d < 134 {
                                        230049737
                                    } else {
                                        if d < 135 {
                                            231747903
                                        } else {
                                            233445363
                                        }
                                    }
                                } else {
                                    if d < 138 {
                                        if d < 137 {
                                            235142113
                                        } else {
                                            236838146
                                        }
                                    } else {
                                        if d < 139 {
                                            238533457
                                        } else {
                                            240228042
                                        }
                                    }
                                }
                            }
                        }
                    } else {
                        if d < 154 {
                            if d < 147 {
                                if d < 143 {
                                    if d < 141 {
                                        241921895
                                    } else {
                                        if d < 142 {
                                            243615011
                                        } else {
                                            245307385
                                        }
                                    }
                                } else {
                                    if d < 145 {
                                        if d < 144 {
                                            246999012
                                        } else {
                                            248689887
                                        }
                                    } else {
                                        if d < 146 {
                                            250380004
                                        } else {
                                            252069358
                                        }
                                    }
                                }
                            } else {
                                if d < 150 {
                                    if d < 148 {
                                        253757944
                                    } else {
                                        if d < 149 {
                                            255445757
                                        } else {
                                            257132793
                                        }
                                    }
                                } else {
                                    if d < 152 {
                                        if d < 151 {
                                            258819045
                                        } else {
                                            260504508
                                        }
                                    } else {
                                        if d < 153 {
                                            262189178
                                        } else {
                                            263873049
                                        }
                                    }
                                }
                            }
                        } else {
                            if d < 161 {
                                if d < 157 {
                                    if d < 155 {
                                        265556117
                                    } else {
                                        if d < 156 {
                                            267238376
                                        } else {
                                            268919820
                                        }
                                    }
                                } else {
                                    if d < 159 {
                                        if d < 158 {
                                            270600445
                                        } else {
                                            272280247
                                        }
                                    } else {
                                        if d < 160 {
                                            273959218
                                        } else {
                                            275637355
                                        }
                                    }
                                }
                            } else {
                                if d < 164 {
                                    if d < 162 {
                                        277314653
                                    } else {
                                        if d < 163 {
                                            278991106
                                        } else {
                                            280666708
                                        }
                                    }
                                } else {
                                    if d < 166 {
                                        if d < 165 {
                                            282341456
                                        } else {
                                            284015344
                                        }
                                    } else {
                                        if d < 167 {
                                            285688367
                                        } else {
                                            287360519
                                        }
                                    }
                                }
                            }
                        }
                    }
                } else {
                    if d < 196 {
                        if d < 182 {
                            if d < 175 {
                                if d < 171 {
                                    if d < 169 {
                                        289031796
                                    } else {
                                        if d < 170 {
                                            290702193
                                        } else {
                                            292371704
                                        }
                                    }
                                } else {
                                    if d < 173 {
                                        if d < 172 {
                                            294040325
                                        } else {
                                            295708050
                                        }
                                    } else {
                                        if d < 174 {
                                            297374874
                                        } else {
                                            299040792
                                        }
                                    }
                                }
                            } else {
                                if d < 178 {
                                    if d < 176 {
                                        300705799
                                    } else {
                                        if d < 177 {
                                            302369890
                                        } else {
                                            304033060
                                        }
                                    }
                                } else {
                                    if d < 180 {
                                        if d < 179 {
                                            305695304
                                        } else {
                                            307356617
                                        }
                                    } else {
                                        if d < 181 {
                                            309016994
                                        } else {
                                            310676429
                                        }
                                    }
                                }
                            }
                        } else {
                            if d < 189 {
                                if d < 185 {
                                    if d < 183 {
                                        312334918
                                    } else {
                                        if d < 184 {
                                            313992455
                                        } else {
                                            315649036
                                        }
                                    }
                                } else {
                                    if d < 187 {
                                        if d < 186 {
                                            317304656
                                        } else {
                                            318959309
                                        }
                                    } else {
                                        if d < 188 {
                                            320612990
                                        } else {
                                            322265695
                                        }
                                    }
                                }
                            } else {
                                if d < 192 {
                                    if d < 190 {
                                        323917418
                                    } else {
                                        if d < 191 {
                                            325568154
                                        } else {
                                            327217898
                                        }
                                    }
                                } else {
                                    if d < 194 {
                                        if d < 193 {
                                            328866646
                                        } else {
                                            330514392
                                        }
                                    } else {
                                        if d < 195 {
                                            332161131
                                        } else {
                                            333806859
                                        }
                                    }
                                }
                            }
                        }
                    } else {
                        if d < 210 {
                            if d < 203 {
                                if d < 199 {
                                    if d < 197 {
                                        335451569
                                    } else {
                                        if d < 198 {
                                            337095258
                                        } else {
                                            338737920
                                        }
                                    }
                                } else {
                                    if d < 201 {
                                        if d < 200 {
                                            340379550
                                        } else {
                                            342020143
                                        }
                                    } else {
                                        if d < 202 {
                                            343659694
                                        } else {
                                            345298198
                                        }
                                    }
                                }
                            } else {
                                if d < 206 {
                                    if d < 204 {
                                        346935651
                                    } else {
                                        if d < 205 {
                                            348572047
                                        } else {
                                            350207381
                                        }
                                    }
                                } else {
                                    if d < 208 {
                                        if d < 207 {
                                            351841648
                                        } else {
                                            353474843
                                        }
                                    } else {
                                        if d < 209 {
                                            355106962
                                        } else {
                                            356737999
                                        }
                                    }
                                }
                            }
                        } else {
                            if d < 217 {
                                if d < 213 {
                                    if d < 211 {
                                        358367949
                                    } else {
                                        if d < 212 {
                                            359996808
                                        } else {
                                            361624570
                                        }
                                    }
                                } else {
                                    if d < 215 {
                                        if d < 214 {
                                            363251230
                                        } else {
                                            364876784
                                        }
                                    } else {
                                        if d < 216 {
                                            366501226
                                        } else {
                                            368124552
                                        }
                                    }
                                }
                            } else {
                                if d < 221 {
                                    if d < 219 {
                                        if d < 218 {
                                            369746757
                                        } else {
                                            371367835
                                        }
                                    } else {
                                        if d < 220 {
                                            372987782
                                        } else {
                                            374606593
                                        }
                                    }
                                } else {
                                    if d < 223 {
                                        if d < 222 {
                                            376224263
                                        } else {
                                            377840786
                                        }
                                    } else {
                                        if d < 224 {
                                            379456159
                                        } else {
                                            381070376
                                        }
                                    }
                                }
                            }
                        }
                    }
                }
            }
        } else {
            if d < 337 {
                if d < 281 {
                    if d < 253 {
                        if d < 239 {
                            if d < 232 {
                                if d < 228 {
                                    if d < 226 {
                                        382683432
                                    } else {
                                        if d < 227 {
                                            384295322
                                        } else {
                                            385906042
                                        }
                                    }
                                } else {
                                    if d < 230 {
                                        if d < 229 {
                                            387515586
                                        } else {
                                            389123950
                                        }
                                    } else {
                                        if d < 231 {
                                            390731128
                                        } else {
                                            392337116
                                        }
                                    }
                                }
                            } else {
                                if d < 235 {
                                    if d < 233 {
                                        393941909
                                    } else {
                                        if d < 234 {
                                            395545502
                                        } else {
                                            397147890
                                        }
                                    }
                                } else {
                                    if d < 237 {
                                        if d < 236 {
                                            398749068
                                        } else {
                                            400349032
                                        }
                                    } else {
                                        if d < 238 {
                                            401947776
                                        } else {
                                            403545296
                                        }
                                    }
                                }
                            }
                        } else {
                            if d < 246 {
                                if d < 242 {
                                    if d < 240 {
                                        405141586
                                    } else {
                                        if d < 241 {
                                            406736643
                                        } else {
                                            408330460
                                        }
                                    }
                                } else {
                                    if d < 244 {
                                        if d < 243 {
                                            409923033
                                        } else {
                                            411514358
                                        }
                                    } else {
                                        if d < 245 {
                                            413104429
                                        } else {
                                            414693242
                                        }
                                    }
                                }
                            } else {
                                if d < 249 {
                                    if d < 247 {
                                        416280792
                                    } else {
                                        if d < 248 {
                                            417867073
                                        } else {
                                            419452082
                                        }
                                    }
                                } else {
                                    if d < 251 {
                                        if d < 250 {
                                            421035813
                                        } else {
                                            422618261
                                        }
                                    } else {
                                        if d < 252 {
                                            424199422
                                        } else {
                                            425779291
                                        }
                                    }
                                }
                            }
                        }
                    } else {
                        if d < 267 {
                            if d < 260 {
                                if d < 256 {
                                    if d < 254 {
                                        427357863
                                    } else {
                                        if d < 255 {
                                            428935133
                                        } else {
                                            430511096
                                        }
                                    }
                                } else {
                                    if d < 258 {
                                        if d < 257 {
                                            432085748
                                        } else {
                                            433659084
                                        }
                                    } else {
                                        if d < 259 {
                                            435231099
                                        } else {
                                            436801788
                                        }
                                    }
                                }
                            } else {
                                if d < 263 {
                                    if d < 261 {
                                        438371146
                                    } else {
                                        if d < 262 {
                                            439939169
                                        } else {
                                            441505852
                                        }
                                    }
                                } else {
                                    if d < 265 {
                                        if d < 264 {
                                            443071190
                                        } else {
                                            444635179
                                        }
                                    } else {
                                        if d < 266 {
                                            446197813
                                        } else {
                                            447759087
                                        }
                                    }
                                }
                            }
                        } else {
                            if d < 274 {
                                if d < 270 {
                                    if d < 268 {
                                        449318998
                                    } else {
                                        if d < 269 {
                                            450877540
                                        } else {
                                            452434709
                                        }
                                    }
                                } else {
                                    if d < 272 {
                                        if d < 271 {
                                            453990499
                                        } else {
                                            455544907
                                        }
                                    } else {
                                        if d < 273 {
                                            457097927
                                        } else {
                                            458649554
                                        }
                                    }
                                }
                            } else {
                                if d < 277 {
                                    if d < 275 {
                                        460199784
                                    } else {
                                        if d < 276 {
                                            461748613
                                        } else {
                                            463296035
                                        }
                                    }
                                } else {
                                    if d < 279 {
                                        if d < 278 {
                                            464842045
                                        } else {
                                            466386640
                                        }
                                    } else {
                                        if d < 280 {
                                            467929814
                                        } else {
                                            469471562
                                        }
                                    }
                                }
                            }
                        }
                    }
                } else {
                    if d < 309 {
                        if d < 295 {
                            if d < 288 {
                                if d < 284 {
                                    if d < 282 {
                                        471011881
                                    } else {
                                        if d < 283 {
                                            472550764
                                        } else {
                                            474088209
                                        }
                                    }
                                } else {
                                    if d < 286 {
                                        if d < 285 {
                                            475624209
                                        } else {
                                            477158760
                                        }
                                    } else {
                                        if d < 287 {
                                            478691857
                                        } else {
                                            480223497
                                        }
                                    }
                                }
                            } else {
                                if d < 291 {
                                    if d < 289 {
                                        481753674
                                    } else {
                                        if d < 290 {
                                            483282383
                                        } else {
                                            484809620
                                        }
                                    }
                                } else {
                                    if d < 293 {
                                        if d < 292 {
                                            486335380
                                        } else {
                                            487859659
                                        }
                                    } else {
                                        if d < 294 {
                                            489382451
                                        } else {
                                            490903753
                                        }
                                    }
                                }
                            }
                        } else {
                            if d < 302 {
                                if d < 298 {
                                    if d < 296 {
                                        492423560
                                    } else {
                                        if d < 297 {
                                            493941866
                                        } else {
                                            495458668
                                        }
                                    }
                                } else {
                                    if d < 300 {
                                        if d < 299 {
                                            496973961
                                        } else {
                                            498487739
                                        }
                                    } else {
                                        if d < 301 {
                                            500000000
                                        } else {
                                            501510737
                                        }
                                    }
                                }
                            } else {
                                if d < 305 {
                                    if d < 303 {
                                        503019946
                                    } else {
                                        if d < 304 {
                                            504527623
                                        } else {
                                            506033764
                                        }
                                    }
                                } else {
                                    if d < 307 {
                                        if d < 306 {
                                            507538362
                                        } else {
                                            509041415
                                        }
                                    } else {
                                        if d < 308 {
                                            510542917
                                        } else {
                                            512042864
                                        }
                                    }
                                }
                            }
                        }
                    } else {
                        if d < 323 {
                            if d < 316 {
                                if d < 312 {
                                    if d < 310 {
                                        513541252
                                    } else {
                                        if d < 311 {
                                            515038074
                                        } else {
                                            516533328
                                        }
                                    }
                                } else {
                                    if d < 314 {
                                        if d < 313 {
                                            518027009
                                        } else {
                                            519519111
                                        }
                                    } else {
                                        if d < 315 {
                                            521009631
                                        } else {
                                            522498564
                                        }
                                    }
                                }
                            } else {
                                if d < 319 {
                                    if d < 317 {
                                        523985905
                                    } else {
                                        if d < 318 {
                                            525471651
                                        } else {
                                            526955795
                                        }
                                    }
                                } else {
                                    if d < 321 {
                                        if d < 320 {
                                            528438334
                                        } else {
                                            529919264
                                        }
                                    } else {
                                        if d < 322 {
                                            531398579
                                        } else {
                                            532876276
                                        }
                                    }
                                }
                            }
                        } else {
                            if d < 330 {
                                if d < 326 {
                                    if d < 324 {
                                        534352349
                                    } else {
                                        if d < 325 {
                                            535826794
                                        } else {
                                            537299608
                                        }
                                    }
                                } else {
                                    if d < 328 {
                                        if d < 327 {
                                            538770785
                                        } else {
                                            540240320
                                        }
                                    } else {
                                        if d < 329 {
                                            541708210
                                        } else {
                                            543174449
                                        }
                                    }
                                }
                            } else {
                                if d < 333 {
                                    if d < 331 {
                                        544639035
                                    } else {
                                        if d < 332 {
                                            546101961
                                        } else {
                                            547563223
                                        }
                                    }
                                } else {
                                    if d < 335 {
                                        if d < 334 {
                                            549022817
                                        } else {
                                            550480740
                                        }
                                    } else {
                                        if d < 336 {
                                            551936985
                                        } else {
                                            553391549
                                        }
                                    }
                                }
                            }
                        }
                    }
                }
            } else {
                if d < 393 {
                    if d < 365 {
                        if d < 351 {
                            if d < 344 {
                                if d < 340 {
                                    if d < 338 {
                                        554844427
                                    } else {
                                        if d < 339 {
                                            556295615
                                        } else {
                                            557745108
                                        }
                                    }
                                } else {
                                    if d < 342 {
                                        if d < 341 {
                                            559192903
                                        } else {
                                            560638994
                                        }
                                    } else {
                                        if d < 343 {
                                            562083377
                                        } else {
                                            563526048
                                        }
                                    }
                                }
                            } else {
                                if d < 347 {
                                    if d < 345 {
                                        564967003
                                    } else {
                                        if d < 346 {
                                            566406236
                                        } else {
                                            567843745
                                        }
                                    }
                                } else {
                                    if d < 349 {
                                        if d < 348 {
                                            569279523
                                        } else {
                                            570713567
                                        }
                                    } else {
                                        if d < 350 {
                                            572145873
                                        } else {
                                            573576436
                                        }
                                    }
                                }
                            }
                        } else {
                            if d < 358 {
                                if d < 354 {
                                    if d < 352 {
                                        575005252
                                    } else {
                                        if d < 353 {
                                            576432316
                                        } else {
                                            577857624
                                        }
                                    }
                                } else {
                                    if d < 356 {
                                        if d < 355 {
                                            579281172
                                        } else {
                                            580702955
                                        }
                                    } else {
                                        if d < 357 {
                                            582122970
                                        } else {
                                            583541211
                                        }
                                    }
                                }
                            } else {
                                if d < 361 {
                                    if d < 359 {
                                        584957674
                                    } else {
                                        if d < 360 {
                                            586372356
                                        } else {
                                            587785252
                                        }
                                    }
                                } else {
                                    if d < 363 {
                                        if d < 362 {
                                            589196357
                                        } else {
                                            590605667
                                        }
                                    } else {
                                        if d < 364 {
                                            592013178
                                        } else {
                                            593418886
                                        }
                                    }
                                }
                            }
                        }
                    } else {
                        if d < 379 {
                            if d < 372 {
                                if d < 368 {
                                    if d < 366 {
                                        594822786
                                    } else {
                                        if d < 367 {
                                            596224874
                                        } else {
                                            597625146
                                        }
                                    }
                                } else {
                                    if d < 370 {
                                        if d < 369 {
                                            599023598
                                        } else {
                                            600420225
                                        }
                                    } else {
                                        if d < 371 {
                                            601815023
                                        } else {
                                            603207987
                                        }
                                    }
                                }
                            } else {
                                if d < 375 {
                                    if d < 373 {
                                        604599114
                                    } else {
                                        if d < 374 {
                                            605988400
                                        } else {
                                            607375839
                                        }
                                    }
                                } else {
                                    if d < 377 {
                                        if d < 376 {
                                            608761429
                                        } else {
                                            610145163
                                        }
                                    } else {
                                        if d < 378 {
                                            611527040
                                        } else {
                                            612907053
                                        }
                                    }
                                }
                            }
                        } else {
                            if d < 386 {
                                if d < 382 {
                                    if d < 380 {
                                        614285200
                                    } else {
                                        if d < 381 {
                                            615661475
                                        } else {
                                            617035875
                                        }
                                    }
                                } else {
                                    if d < 384 {
                                        if d < 383 {
                                            618408395
                                        } else {
                                            619779031
                                        }
                                    } else {
                                        if d < 385 {
                                            621147780
                                        } else {
                                            622514636
                                        }
                                    }
                                }
                            } else {
                                if d < 389 {
                                    if d < 387 {
                                        623879596
                                    } else {
                                        if d < 388 {
                                            625242656
                                        } else {
                                            626603811
                                        }
                                    }
                                } else {
                                    if d < 391 {
                                        if d < 390 {
                                            627963057
                                        } else {
                                            629320391
                                        }
                                    } else {
                                        if d < 392 {
                                            630675807
                                        } else {
                                            632029302
                                        }
                                    }
                                }
                            }
                        }
                    }
                } else {
                    if d < 421 {
                        if d < 407 {
                            if d < 400 {
                                if d < 396 {
                                    if d < 394 {
                                        633380872
                                    } else {
                                        if d < 395 {
                                            634730513
                                        } else {
                                            636078220
                                        }
                                    }
                                } else {
                                    if d < 398 {
                                        if d < 397 {
                                            637423989
                                        } else {
                                            638767817
                                        }
                                    } else {
                                        if d < 399 {
                                            640109699
                                        } else {
                                            641449631
                                        }
                                    }
                                }
                            } else {
                                if d < 403 {
                                    if d < 401 {
                                        642787609
                                    } else {
                                        if d < 402 {
                                            644123629
                                        } else {
                                            645457687
                                        }
                                    }
                                } else {
                                    if d < 405 {
                                        if d < 404 {
                                            646789779
                                        } else {
                                            648119901
                                        }
                                    } else {
                                        if d < 406 {
                                            649448048
                                        } else {
                                            650774217
                                        }
                                    }
                                }
                            }
                        } else {
                            if d < 414 {
                                if d < 410 {
                                    if d < 408 {
                                        652098403
                                    } else {
                                        if d < 409 {
                                            653420603
                                        } else {
                                            654740813
                                        }
                                    }
                                } else {
                                    if d < 412 {
                                        if d < 411 {
                                            656059028
                                        } else {
                                            657375245
                                        }
                                    } else {
                                        if d < 413 {
                                            658689460
                                        } else {
                                            660001667
                                        }
                                    }
                                }
                            } else {
                                if d < 417 {
                                    if d < 415 {
                                        661311865
                                    } else {
                                        if d < 416 {
                                            662620048
                                        } else {
                                            663926212
                                        }
                                    }
                                } else {
                                    if d < 419 {
                                        if d < 418 {
                                            665230354
                                        } else {
                                            666532470
                                        }
                                    } else {
                                        if d < 420 {
                                            667832555
                                        } else {
                                            669130606
                                        }
                                    }
                                }
                            }
                        }
                    } else {
                        if d < 435 {
                            if d < 428 {
                                if d < 424 {
                                    if d < 422 {
                                        670426618
                                    } else {
                                        if d < 423 {
                                            671720589
                                        } else {
                                            673012513
                                        }
                                    }
                                } else {
                                    if d < 426 {
                                        if d < 425 {
                                            674302387
                                        } else {
                                            675590207
                                        }
                                    } else {
                                        if d < 427 {
                                            676875969
                                        } else {
                                            678159669
                                        }
                                    }
                                }
                            } else {
                                if d < 431 {
                                    if d < 429 {
                                        679441304
                                    } else {
                                        if d < 430 {
                                            680720868
                                        } else {
                                            681998360
                                        }
                                    }
                                } else {
                                    if d < 433 {
                                        if d < 432 {
                                            683273773
                                        } else {
                                            684547105
                                        }
                                    } else {
                                        if d < 434 {
                                            685818352
                                        } else {
                                            687087510
                                        }
                                    }
                                }
                            }
                        } else {
                            if d < 442 {
                                if d < 438 {
                                    if d < 436 {
                                        688354575
                                    } else {
                                        if d < 437 {
                                            689619543
                                        } else {
                                            690882411
                                        }
                                    }
                                } else {
                                    if d < 440 {
                                        if d < 439 {
                                            692143173
                                        } else {
                                            693401828
                                        }
                                    } else {
                                        if d < 441 {
                                            694658370
                                        } else {
                                            695912796
                                        }
                                    }
                                }
                            } else {
                                if d < 446 {
                                    if d < 444 {
                                        if d < 443 {
                                            697165102
                                        } else {
                                            698415285
                                        }
                                    } else {
                                        if d < 445 {
                                            699663340
                                        } else {
                                            700909264
                                        }
                                    }
                                } else {
                                    if d < 448 {
                                        if d < 447 {
                                            702153052
                                        } else {
                                            703394702
                                        }
                                    } else {
                                        if d < 449 {
                                            704634209
                                        } else {
                                            705871570
                                        }
                                    }
                                }
                            }
                        }
                    }
                }
            }
        }
    } else {
        if d < 675 {
            if d < 562 {
                if d < 506 {
                    if d < 478 {
                        if d < 464 {
                            if d < 457 {
                                if d < 453 {
                                    if d < 451 {
                                        707106781
                                    } else {
                                        if d < 452 {
                                            708339837
                                        } else {
                                            709570736
                                        }
                                    }
                                } else {
                                    if d < 455 {
                                        if d < 454 {
                                            710799473
                                        } else {
                                            712026045
                                        }
                                    } else {
                                        if d < 456 {
                                            713250449
                                        } else {
                                            714472679
                                        }
                                    }
                                }
                            } else {
                                if d < 460 {
                                    if d < 458 {
                                        715692733
                                    } else {
                                        if d < 459 {
                                            716910607
                                        } else {
                                            718126297
                                        }
                                    }
                                } else {
                                    if d < 462 {
                                        if d < 461 {
                                            719339800
                                        } else {
                                            720551111
                                        }
                                    } else {
                                        if d < 463 {
                                            721760228
                                        } else {
                                            722967145
                                        }
                                    }
                                }
                            }
                        } else {
                            if d < 471 {
                                if d < 467 {
                                    if d < 465 {
                                        724171861
                                    } else {
                                        if d < 466 {
                                            725374371
                                        } else {
                                            726574670
                                        }
                                    }
                                } else {
                                    if d < 469 {
                                        if d < 468 {
                                            727772757
                                        } else {
                                            728968627
                                        }
                                    } else {
                                        if d < 470 {
                                            730162276
                                        } else {
                                            731353701
                                        }
                                    }
                                }
                            } else {
                                if d < 474 {
                                    if d < 472 {
                                        732542898
                                    } else {
                                        if d < 473 {
                                            733729864
                                        } else {
                                            734914595
                                        }
                                    }
                                } else {
                                    if d < 476 {
                                        if d < 475 {
                                            736097087
                                        } else {
                                            737277336
                                        }
                                    } else {
                                        if d < 477 {
                                            738455340
                                        } else {
                                            739631094
                                        }
                                    }
                                }
                            }
                        }
                    } else {
                        if d < 492 {
                            if d < 485 {
                                if d < 481 {
                                    if d < 479 {
                                        740804596
                                    } else {
                                        if d < 480 {
                                            741975840
                                        } else {
                                            743144825
                                        }
                                    }
                                } else {
                                    if d < 483 {
                                        if d < 482 {
                                            744311546
                                        } else {
                                            745475999
                                        }
                                    } else {
                                        if d < 484 {
                                            746638182
                                        } else {
                                            747798090
                                        }
                                    }
                                }
                            } else {
                                if d < 488 {
                                    if d < 486 {
                                        748955720
                                    } else {
                                        if d < 487 {
                                            750111069
                                        } else {
                                            751264133
                                        }
                                    }
                                } else {
                                    if d < 490 {
                                        if d < 489 {
                                            752414908
                                        } else {
                                            753563392
                                        }
                                    } else {
                                        if d < 491 {
                                            754709580
                                        } else {
                                            755853469
                                        }
                                    }
                                }
                            }
                        } else {
                            if d < 499 {
                                if d < 495 {
                                    if d < 493 {
                                        756995055
                                    } else {
                                        if d < 494 {
                                            758134336
                                        } else {
                                            759271307
                                        }
                                    }
                                } else {
                                    if d < 497 {
                                        if d < 496 {
                                            760405965
                                        } else {
                                            761538307
                                        }
                                    } else {
                                        if d < 498 {
                                            762668329
                                        } else {
                                            763796028
                                        }
                                    }
                                }
                            } else {
                                if d < 502 {
                                    if d < 500 {
                                        764921400
                                    } else {
                                        if d < 501 {
                                            766044443
                                        } else {
                                            767165151
                                        }
                                    }
                                } else {
                                    if d < 504 {
                                        if d < 503 {
                                            768283523
                                        } else {
                                            769399555
                                        }
                                    } else {
                                        if d < 505 {
                                            770513242
                                        } else {
                                            771624583
                                        }
                                    }
                                }
                            }
                        }
                    }
                } else {
                    if d < 534 {
                        if d < 520 {
                            if d < 513 {
                                if d < 509 {
                                    if d < 507 {
                                        772733573
                                    } else {
                                        if d < 508 {
                                            773840209
                                        } else {
                                            774944488
                                        }
                                    }
                                } else {
                                    if d < 511 {
                                        if d < 510 {
                                            776046407
                                        } else {
                                            777145961
                                        }
                                    } else {
                                        if d < 512 {
                                            778243148
                                        } else {
                                            779337964
                                        }
                                    }
                                }
                            } else {
                                if d < 516 {
                                    if d < 514 {
                                        780430407
                                    } else {
                                        if d < 515 {
                                            781520472
                                        } else {
                                            782608156
                                        }
                                    }
                                } else {
                                    if d < 518 {
                                        if d < 517 {
                                            783693457
                                        } else {
                                            784776370
                                        }
                                    } else {
                                        if d < 519 {
                                            785856893
                                        } else {
                                            786935021
                                        }
                                    }
                                }
                            }
                        } else {
                            if d < 527 {
                                if d < 523 {
                                    if d < 521 {
                                        788010753
                                    } else {
                                        if d < 522 {
                                            789084084
                                        } else {
                                            790155012
                                        }
                                    }
                                } else {
                                    if d < 525 {
                                        if d < 524 {
                                            791223532
                                        } else {
                                            792289643
                                        }
                                    } else {
                                        if d < 526 {
                                            793353340
                                        } else {
                                            794414620
                                        }
                                    }
                                }
                            } else {
                                if d < 530 {
                                    if d < 528 {
                                        795473480
                                    } else {
                                        if d < 529 {
                                            796529918
                                        } else {
                                            797583928
                                        }
                                    }
                                } else {
                                    if d < 532 {
                                        if d < 531 {
                                            798635510
                                        } else {
                                            799684658
                                        }
                                    } else {
                                        if d < 533 {
                                            800731370
                                        } else {
                                            801775644
                                        }
                                    }
                                }
                            }
                        }
                    } else {
                        if d < 548 {
                            if d < 541 {
                                if d < 537 {
                                    if d < 535 {
                                        802817475
                                    } else {
                                        if d < 536 {
                                            803856860
                                        } else {
                                            804893797
                                        }
                                    }
                                } else {
                                    if d < 539 {
                                        if d < 538 {
                                            805928282
                                        } else {
                                            806960312
                                        }
                                    } else {
                                        if d < 540 {
                                            807989883
                                        } else {
                                            809016994
                                        }
                                    }
                                }
                            } else {
                                if d < 544 {
                                    if d < 542 {
                                        810041640
                                    } else {
                                        if d < 543 {
                                            811063818
                                        } else {
                                            812083526
                                        }
                                    }
                                } else {
                                    if d < 546 {
                                        if d < 545 {
                                            813100761
                                        } else {
                                            814115518
                                        }
                                    } else {
                                        if d < 547 {
                                            815127795
                                        } else {
                                            816137590
                                        }
                                    }
                                }
                            }
                        } else {
                            if d < 555 {
                                if d < 551 {
                                    if d < 549 {
                                        817144898
                                    } else {
                                        if d < 550 {
                                            818149717
                                        } else {
                                            819152044
                                        }
                                    }
                                } else {
                                    if d < 553 {
                                        if d < 552 {
                                            820151875
                                        } else {
                                            821149209
                                        }
                                    } else {
                                        if d < 554 {
                                            822144041
                                        } else {
                                            823136368
                                        }
                                    }
                                }
                            } else {
                                if d < 558 {
                                    if d < 556 {
                                        824126188
                                    } else {
                                        if d < 557 {
                                            825113498
                                        } else {
                                            826098294
                                        }
                                    }
                                } else {
                                    if d < 560 {
                                        if d < 559 {
                                            827080574
                                        } else {
                                            828060334
                                        }
                                    } else {
                                        if d < 561 {
                                            829037572
                                        } else {
                                            830012285
                                        }
                                    }
                                }
                            }
                        }
                    }
                }
            } else {
                if d < 618 {
                    if d < 590 {
                        if d < 576 {
                            if d < 569 {
                                if d < 565 {
                                    if d < 563 {
                                        830984469
                                    } else {
                                        if d < 564 {
                                            831954122
                                        } else {
                                            832921240
                                        }
                                    }
                                } else {
                                    if d < 567 {
                                        if d < 566 {
                                            833885822
                                        } else {
                                            834847863
                                        }
                                    } else {
                                        if d < 568 {
                                            835807361
                                        } else {
                                            836764313
                                        }
                                    }
                                }
                            } else {
                                if d < 572 {
                                    if d < 570 {
                                        837718716
                                    } else {
                                        if d < 571 {
                                            838670567
                                        } else {
                                            839619864
                                        }
                                    }
                                } else {
                                    if d < 574 {
                                        if d < 573 {
                                            840566603
                                        } else {
                                            841510781
                                        }
                                    } else {
                                        if d < 575 {
                                            842452397
                                        } else {
                                            843391445
                                        }
                                    }
                                }
                            }
                        } else {
                            if d < 583 {
                                if d < 579 {
                                    if d < 577 {
                                        844327925
                                    } else {
                                        if d < 578 {
                                            845261833
                                        } else {
                                            846193166
                                        }
                                    }
                                } else {
                                    if d < 581 {
                                        if d < 580 {
                                            847121921
                                        } else {
                                            848048096
                                        }
                                    } else {
                                        if d < 582 {
                                            848971687
                                        } else {
                                            849892692
                                        }
                                    }
                                }
                            } else {
                                if d < 586 {
                                    if d < 584 {
                                        850811109
                                    } else {
                                        if d < 585 {
                                            851726934
                                        } else {
                                            852640164
                                        }
                                    }
                                } else {
                                    if d < 588 {
                                        if d < 587 {
                                            853550797
                                        } else {
                                            854458830
                                        }
                                    } else {
                                        if d < 589 {
                                            855364260
                                        } else {
                                            856267084
                                        }
                                    }
                                }
                            }
                        }
                    } else {
                        if d < 604 {
                            if d < 597 {
                                if d < 593 {
                                    if d < 591 {
                                        857167300
                                    } else {
                                        if d < 592 {
                                            858064905
                                        } else {
                                            858959896
                                        }
                                    }
                                } else {
                                    if d < 595 {
                                        if d < 594 {
                                            859852271
                                        } else {
                                            860742027
                                        }
                                    } else {
                                        if d < 596 {
                                            861629160
                                        } else {
                                            862513669
                                        }
                                    }
                                }
                            } else {
                                if d < 600 {
                                    if d < 598 {
                                        863395550
                                    } else {
                                        if d < 599 {
                                            864274801
                                        } else {
                                            865151420
                                        }
                                    }
                                } else {
                                    if d < 602 {
                                        if d < 601 {
                                            866025403
                                        } else {
                                            866896748
                                        }
                                    } else {
                                        if d < 603 {
                                            867765453
                                        } else {
                                            868631514
                                        }
                                    }
                                }
                            }
                        } else {
                            if d < 611 {
                                if d < 607 {
                                    if d < 605 {
                                        869494929
                                    } else {
                                        if d < 606 {
                                            870355695
                                        } else {
                                            871213811
                                        }
                                    }
                                } else {
                                    if d < 609 {
                                        if d < 608 {
                                            872069272
                                        } else {
                                            872922077
                                        }
                                    } else {
                                        if d < 610 {
                                            873772223
                                        } else {
                                            874619707
                                        }
                                    }
                                }
                            } else {
                                if d < 614 {
                                    if d < 612 {
                                        875464527
                                    } else {
                                        if d < 613 {
                                            876306680
                                        } else {
                                            877146163
                                        }
                                    }
                                } else {
                                    if d < 616 {
                                        if d < 615 {
                                            877982975
                                        } else {
                                            878817112
                                        }
                                    } else {
                                        if d < 617 {
                                            879648572
                                        } else {
                                            880477353
                                        }
                                    }
                                }
                            }
                        }
                    }
                } else {
                    if d < 646 {
                        if d < 632 {
                            if d < 625 {
                                if d < 621 {
                                    if d < 619 {
                                        881303452
                                    } else {
                                        if d < 620 {
                                            882126866
                                        } else {
                                            882947592
                                        }
                                    }
                                } else {
                                    if d < 623 {
                                        if d < 622 {
                                            883765630
                                        } else {
                                            884580975
                                        }
                                    } else {
                                        if d < 624 {
                                            885393625
                                        } else {
                                            886203579
                                        }
                                    }
                                }
                            } else {
                                if d < 628 {
                                    if d < 626 {
                                        887010833
                                    } else {
                                        if d < 627 {
                                            887815385
                                        } else {
                                            888617232
                                        }
                                    }
                                } else {
                                    if d < 630 {
                                        if d < 629 {
                                            889416373
                                        } else {
                                            890212804
                                        }
                                    } else {
                                        if d < 631 {
                                            891006524
                                        } else {
                                            891797529
                                        }
                                    }
                                }
                            }
                        } else {
                            if d < 639 {
                                if d < 635 {
                                    if d < 633 {
                                        892585818
                                    } else {
                                        if d < 634 {
                                            893371388
                                        } else {
                                            894154236
                                        }
                                    }
                                } else {
                                    if d < 637 {
                                        if d < 636 {
                                            894934361
                                        } else {
                                            895711760
                                        }
                                    } else {
                                        if d < 638 {
                                            896486430
                                        } else {
                                            897258369
                                        }
                                    }
                                }
                            } else {
                                if d < 642 {
                                    if d < 640 {
                                        898027575
                                    } else {
                                        if d < 641 {
                                            898794046
                                        } else {
                                            899557778
                                        }
                                    }
                                } else {
                                    if d < 644 {
                                        if d < 643 {
                                            900318771
                                        } else {
                                            901077021
                                        }
                                    } else {
                                        if d < 645 {
                                            901832526
                                        } else {
                                            902585284
                                        }
                                    }
                                }
                            }
                        }
                    } else {
                        if d < 660 {
                            if d < 653 {
                                if d < 649 {
                                    if d < 647 {
                                        903335292
                                    } else {
                                        if d < 648 {
                                            904082549
                                        } else {
                                            904827052
                                        }
                                    }
                                } else {
                                    if d < 651 {
                                        if d < 650 {
                                            905568799
                                        } else {
                                            906307787
                                        }
                                    } else {
                                        if d < 652 {
                                            907044014
                                        } else {
                                            907777478
                                        }
                                    }
                                }
                            } else {
                                if d < 656 {
                                    if d < 654 {
                                        908508177
                                    } else {
                                        if d < 655 {
                                            909236109
                                        } else {
                                            909961270
                                        }
                                    }
                                } else {
                                    if d < 658 {
                                        if d < 657 {
                                            910683660
                                        } else {
                                            911403276
                                        }
                                    } else {
                                        if d < 659 {
                                            912120116
                                        } else {
                                            912834177
                                        }
                                    }
                                }
                            }
                        } else {
                            if d < 667 {
                                if d < 663 {
                                    if d < 661 {
                                        913545457
                                    } else {
                                        if d < 662 {
                                            914253955
                                        } else {
                                            914959667
                                        }
                                    }
                                } else {
                                    if d < 665 {
                                        if d < 664 {
                                            915662593
                                        } else {
                                            916362729
                                        }
                                    } else {
                                        if d < 666 {
                                            917060074
                                        } else {
                                            917754625
                                        }
                                    }
                                }
                            } else {
                                if d < 671 {
                                    if d < 669 {
                                        if d < 668 {
                                            918446381
                                        } else {
                                            919135339
                                        }
                                    } else {
                                        if d < 670 {
                                            919821497
                                        } else {
                                            920504853
                                        }
                                    }
                                } else {
                                    if d < 673 {
                                        if d < 672 {
                                            921185405
                                        } else {
                                            921863151
                                        }
                                    } else {
                                        if d < 674 {
                                            922538089
                                        } else {
                                            923210217
                                        }
                                    }
                                }
                            }
                        }
                    }
                }
            }
        } else {
            if d < 788 {
                if d < 731 {
                    if d < 703 {
                        if d < 689 {
                            if d < 682 {
                                if d < 678 {
                                    if d < 676 {
                                        923879532
                                    } else {
                                        if d < 677 {
                                            924546033
                                        } else {
                                            925209718
                                        }
                                    }
                                } else {
                                    if d < 680 {
                                        if d < 679 {
                                            925870584
                                        } else {
                                            926528630
                                        }
                                    } else {
                                        if d < 681 {
                                            927183854
                                        } else {
                                            927836253
                                        }
                                    }
                                }
                            } else {
                                if d < 685 {
                                    if d < 683 {
                                        928485826
                                    } else {
                                        if d < 684 {
                                            929132571
                                        } else {
                                            929776485
                                        }
                                    }
                                } else {
                                    if d < 687 {
                                        if d < 686 {
                                            930417567
                                        } else {
                                            931055815
                                        }
                                    } else {
                                        if d < 688 {
                                            931691227
                                        } else {
                                            932323801
                                        }
                                    }
                                }
                            }
                        } else {
                            if d < 696 {
                                if d < 692 {
                                    if d < 690 {
                                        932953534
                                    } else {
                                        if d < 691 {
                                            933580426
                                        } else {
                                            934204474
                                        }
                                    }
                                } else {
                                    if d < 694 {
                                        if d < 693 {
                                            934825676
                                        } else {
                                            935444030
                                        }
                                    } else {
                                        if d < 695 {
                                            936059535
                                        } else {
                                            936672189
                                        }
                                    }
                                }
                            } else {
                                if d < 699 {
                                    if d < 697 {
                                        937281989
                                    } else {
                                        if d < 698 {
                                            937888934
                                        } else {
                                            938493022
                                        }
                                    }
                                } else {
                                    if d < 701 {
                                        if d < 700 {
                                            939094252
                                        } else {
                                            939692620
                                        }
                                    } else {
                                        if d < 702 {
                                            940288127
                                        } else {
                                            940880768
                                        }
                                    }
                                }
                            }
                        }
                    } else {
                        if d < 717 {
                            if d < 710 {
                                if d < 706 {
                                    if d < 704 {
                                        941470544
                                    } else {
                                        if d < 705 {
                                            942057452
                                        } else {
                                            942641491
                                        }
                                    }
                                } else {
                                    if d < 708 {
                                        if d < 707 {
                                            943222657
                                        } else {
                                            943800951
                                        }
                                    } else {
                                        if d < 709 {
                                            944376370
                                        } else {
                                            944948912
                                        }
                                    }
                                }
                            } else {
                                if d < 713 {
                                    if d < 711 {
                                        945518575
                                    } else {
                                        if d < 712 {
                                            946085358
                                        } else {
                                            946649260
                                        }
                                    }
                                } else {
                                    if d < 715 {
                                        if d < 714 {
                                            947210277
                                        } else {
                                            947768410
                                        }
                                    } else {
                                        if d < 716 {
                                            948323655
                                        } else {
                                            948876011
                                        }
                                    }
                                }
                            }
                        } else {
                            if d < 724 {
                                if d < 720 {
                                    if d < 718 {
                                        949425477
                                    } else {
                                        if d < 719 {
                                            949972051
                                        } else {
                                            950515731
                                        }
                                    }
                                } else {
                                    if d < 722 {
                                        if d < 721 {
                                            951056516
                                        } else {
                                            951594403
                                        }
                                    } else {
                                        if d < 723 {
                                            952129392
                                        } else {
                                            952661481
                                        }
                                    }
                                }
                            } else {
                                if d < 727 {
                                    if d < 725 {
                                        953190667
                                    } else {
                                        if d < 726 {
                                            953716950
                                        } else {
                                            954240328
                                        }
                                    }
                                } else {
                                    if d < 729 {
                                        if d < 728 {
                                            954760799
                                        } else {
                                            955278362
                                        }
                                    } else {
                                        if d < 730 {
                                            955793014
                                        } else {
                                            956304755
                                        }
                                    }
                                }
                            }
                        }
                    }
                } else {
                    if d < 759 {
                        if d < 745 {
                            if d < 738 {
                                if d < 734 {
                                    if d < 732 {
                                        956813584
                                    } else {
                                        if d < 733 {
                                            957319497
                                        } else {
                                            957822494
                                        }
                                    }
                                } else {
                                    if d < 736 {
                                        if d < 735 {
                                            958322574
                                        } else {
                                            958819734
                                        }
                                    } else {
                                        if d < 737 {
                                            959313974
                                        } else {
                                            959805291
                                        }
                                    }
                                }
                            } else {
                                if d < 741 {
                                    if d < 739 {
                                        960293685
                                    } else {
                                        if d < 740 {
                                            960779154
                                        } else {
                                            961261695
                                        }
                                    }
                                } else {
                                    if d < 743 {
                                        if d < 742 {
                                            961741309
                                        } else {
                                            962217993
                                        }
                                    } else {
                                        if d < 744 {
                                            962691746
                                        } else {
                                            963162566
                                        }
                                    }
                                }
                            }
                        } else {
                            if d < 752 {
                                if d < 748 {
                                    if d < 746 {
                                        963630453
                                    } else {
                                        if d < 747 {
                                            964095404
                                        } else {
                                            964557418
                                        }
                                    }
                                } else {
                                    if d < 750 {
                                        if d < 749 {
                                            965016494
                                        } else {
                                            965472630
                                        }
                                    } else {
                                        if d < 751 {
                                            965925826
                                        } else {
                                            966376079
                                        }
                                    }
                                }
                            } else {
                                if d < 755 {
                                    if d < 753 {
                                        966823388
                                    } else {
                                        if d < 754 {
                                            967267752
                                        } else {
                                            967709170
                                        }
                                    }
                                } else {
                                    if d < 757 {
                                        if d < 756 {
                                            968147640
                                        } else {
                                            968583161
                                        }
                                    } else {
                                        if d < 758 {
                                            969015731
                                        } else {
                                            969445349
                                        }
                                    }
                                }
                            }
                        }
                    } else {
                        if d < 773 {
                            if d < 766 {
                                if d < 762 {
                                    if d < 760 {
                                        969872015
                                    } else {
                                        if d < 761 {
                                            970295726
                                        } else {
                                            970716481
                                        }
                                    }
                                } else {
                                    if d < 764 {
                                        if d < 763 {
                                            971134279
                                        } else {
                                            971549119
                                        }
                                    } else {
                                        if d < 765 {
                                            971961000
                                        } else {
                                            972369920
                                        }
                                    }
                                }
                            } else {
                                if d < 769 {
                                    if d < 767 {
                                        972775878
                                    } else {
                                        if d < 768 {
                                            973178872
                                        } else {
                                            973578902
                                        }
                                    }
                                } else {
                                    if d < 771 {
                                        if d < 770 {
                                            973975967
                                        } else {
                                            974370064
                                        }
                                    } else {
                                        if d < 772 {
                                            974761194
                                        } else {
                                            975149354
                                        }
                                    }
                                }
                            }
                        } else {
                            if d < 780 {
                                if d < 776 {
                                    if d < 774 {
                                        975534543
                                    } else {
                                        if d < 775 {
                                            975916761
                                        } else {
                                            976296007
                                        }
                                    }
                                } else {
                                    if d < 778 {
                                        if d < 777 {
                                            976672278
                                        } else {
                                            977045574
                                        }
                                    } else {
                                        if d < 779 {
                                            977415894
                                        } else {
                                            977783236
                                        }
                                    }
                                }
                            } else {
                                if d < 784 {
                                    if d < 782 {
                                        if d < 781 {
                                            978147600
                                        } else {
                                            978508985
                                        }
                                    } else {
                                        if d < 783 {
                                            978867388
                                        } else {
                                            979222810
                                        }
                                    }
                                } else {
                                    if d < 786 {
                                        if d < 785 {
                                            979575249
                                        } else {
                                            979924704
                                        }
                                    } else {
                                        if d < 787 {
                                            980271174
                                        } else {
                                            980614658
                                        }
                                    }
                                }
                            }
                        }
                    }
                }
            } else {
                if d < 844 {
                    if d < 816 {
                        if d < 802 {
                            if d < 795 {
                                if d < 791 {
                                    if d < 789 {
                                        980955155
                                    } else {
                                        if d < 790 {
                                            981292663
                                        } else {
                                            981627183
                                        }
                                    }
                                } else {
                                    if d < 793 {
                                        if d < 792 {
                                            981958712
                                        } else {
                                            982287250
                                        }
                                    } else {
                                        if d < 794 {
                                            982612796
                                        } else {
                                            982935349
                                        }
                                    }
                                }
                            } else {
                                if d < 798 {
                                    if d < 796 {
                                        983254907
                                    } else {
                                        if d < 797 {
                                            983571470
                                        } else {
                                            983885037
                                        }
                                    }
                                } else {
                                    if d < 800 {
                                        if d < 799 {
                                            984195607
                                        } else {
                                            984503179
                                        }
                                    } else {
                                        if d < 801 {
                                            984807753
                                        } else {
                                            985109326
                                        }
                                    }
                                }
                            }
                        } else {
                            if d < 809 {
                                if d < 805 {
                                    if d < 803 {
                                        985407898
                                    } else {
                                        if d < 804 {
                                            985703469
                                        } else {
                                            985996037
                                        }
                                    }
                                } else {
                                    if d < 807 {
                                        if d < 806 {
                                            986285601
                                        } else {
                                            986572161
                                        }
                                    } else {
                                        if d < 808 {
                                            986855716
                                        } else {
                                            987136265
                                        }
                                    }
                                }
                            } else {
                                if d < 812 {
                                    if d < 810 {
                                        987413806
                                    } else {
                                        if d < 811 {
                                            987688340
                                        } else {
                                            987959865
                                        }
                                    }
                                } else {
                                    if d < 814 {
                                        if d < 813 {
                                            988228381
                                        } else {
                                            988493886
                                        }
                                    } else {
                                        if d < 815 {
                                            988756381
                                        } else {
                                            989015863
                                        }
                                    }
                                }
                            }
                        }
                    } else {
                        if d < 830 {
                            if d < 823 {
                                if d < 819 {
                                    if d < 817 {
                                        989272332
                                    } else {
                                        if d < 818 {
                                            989525789
                                        } else {
                                            989776230
                                        }
                                    }
                                } else {
                                    if d < 821 {
                                        if d < 820 {
                                            990023657
                                        } else {
                                            990268068
                                        }
                                    } else {
                                        if d < 822 {
                                            990509463
                                        } else {
                                            990747840
                                        }
                                    }
                                }
                            } else {
                                if d < 826 {
                                    if d < 824 {
                                        990983199
                                    } else {
                                        if d < 825 {
                                            991215540
                                        } else {
                                            991444861
                                        }
                                    }
                                } else {
                                    if d < 828 {
                                        if d < 827 {
                                            991671162
                                        } else {
                                            991894442
                                        }
                                    } else {
                                        if d < 829 {
                                            992114701
                                        } else {
                                            992331937
                                        }
                                    }
                                }
                            }
                        } else {
                            if d < 837 {
                                if d < 833 {
                                    if d < 831 {
                                        992546151
                                    } else {
                                        if d < 832 {
                                            992757341
                                        } else {
                                            992965508
                                        }
                                    }
                                } else {
                                    if d < 835 {
                                        if d < 834 {
                                            993170649
                                        } else {
                                            993372765
                                        }
                                    } else {
                                        if d < 836 {
                                            993571855
                                        } else {
                                            993767919
                                        }
                                    }
                                }
                            } else {
                                if d < 840 {
                                    if d < 838 {
                                        993960955
                                    } else {
                                        if d < 839 {
                                            994150963
                                        } else {
                                            994337944
                                        }
                                    }
                                } else {
                                    if d < 842 {
                                        if d < 841 {
                                            994521895
                                        } else {
                                            994702817
                                        }
                                    } else {
                                        if d < 843 {
                                            994880708
                                        } else {
                                            995055569
                                        }
                                    }
                                }
                            }
                        }
                    }
                } else {
                    if d < 872 {
                        if d < 858 {
                            if d < 851 {
                                if d < 847 {
                                    if d < 845 {
                                        995227399
                                    } else {
                                        if d < 846 {
                                            995396198
                                        } else {
                                            995561964
                                        }
                                    }
                                } else {
                                    if d < 849 {
                                        if d < 848 {
                                            995724698
                                        } else {
                                            995884398
                                        }
                                    } else {
                                        if d < 850 {
                                            996041065
                                        } else {
                                            996194698
                                        }
                                    }
                                }
                            } else {
                                if d < 854 {
                                    if d < 852 {
                                        996345296
                                    } else {
                                        if d < 853 {
                                            996492859
                                        } else {
                                            996637386
                                        }
                                    }
                                } else {
                                    if d < 856 {
                                        if d < 855 {
                                            996778878
                                        } else {
                                            996917333
                                        }
                                    } else {
                                        if d < 857 {
                                            997052752
                                        } else {
                                            997185133
                                        }
                                    }
                                }
                            }
                        } else {
                            if d < 865 {
                                if d < 861 {
                                    if d < 859 {
                                        997314477
                                    } else {
                                        if d < 860 {
                                            997440782
                                        } else {
                                            997564050
                                        }
                                    }
                                } else {
                                    if d < 863 {
                                        if d < 862 {
                                            997684278
                                        } else {
                                            997801468
                                        }
                                    } else {
                                        if d < 864 {
                                            997915618
                                        } else {
                                            998026728
                                        }
                                    }
                                }
                            } else {
                                if d < 868 {
                                    if d < 866 {
                                        998134798
                                    } else {
                                        if d < 867 {
                                            998239827
                                        } else {
                                            998341816
                                        }
                                    }
                                } else {
                                    if d < 870 {
                                        if d < 869 {
                                            998440764
                                        } else {
                                            998536670
                                        }
                                    } else {
                                        if d < 871 {
                                            998629534
                                        } else {
                                            998719357
                                        }
                                    }
                                }
                            }
                        }
                    } else {
                        if d < 886 {
                            if d < 879 {
                                if d < 875 {
                                    if d < 873 {
                                        998806137
                                    } else {
                                        if d < 874 {
                                            998889874
                                        } else {
                                            998970569
                                        }
                                    }
                                } else {
                                    if d < 877 {
                                        if d < 876 {
                                            999048221
                                        } else {
                                            999122830
                                        }
                                    } else {
                                        if d < 878 {
                                            999194395
                                        } else {
                                            999262916
                                        }
                                    }
                                }
                            } else {
                                if d < 882 {
                                    if d < 880 {
                                        999328393
                                    } else {
                                        if d < 881 {
                                            999390827
                                        } else {
                                            999450215
                                        }
                                    }
                                } else {
                                    if d < 884 {
                                        if d < 883 {
                                            999506560
                                        } else {
                                            999559860
                                        }
                                    } else {
                                        if d < 885 {
                                            999610115
                                        } else {
                                            999657324
                                        }
                                    }
                                }
                            }
                        } else {
                            if d < 893 {
                                if d < 889 {
                                    if d < 887 {
                                        999701489
                                    } else {
                                        if d < 888 {
                                            999742609
                                        } else {
                                            999780683
                                        }
                                    }
                                } else {
                                    if d < 891 {
                                        if d < 890 {
                                            999815712
                                        } else {
                                            999847695
                                        }
                                    } else {
                                        if d < 892 {
                                            999876632
                                        } else {
                                            999902524
                                        }
                                    }
                                }
                            } else {
                                if d < 897 {
                                    if d < 895 {
                                        if d < 894 {
                                            999925369
                                        } else {
                                            999945169
                                        }
                                    } else {
                                        if d < 896 {
                                            999961923
                                        } else {
                                            999975630
                                        }
                                    }
                                } else {
                                    if d < 899 {
                                        if d < 898 {
                                            999986292
                                        } else {
                                            999993907
                                        }
                                    } else {
                                        if d < 900 {
                                            999998476
                                        } else {
                                            1000000000
                                        }
                                    }
                                }
                            }
                        }
                    }
                }
            }
        }
    }
}

/// `cos(d / 10 °) * UNIT`, rounded toward zero, for `0 <= d <= 900`.
pub open spec fn cosine_spec(d: u64) -> int {
    sine_spec((900 - d) as u64)
}

pub fn sine(d: u64) -> (r: i64)
    requires
        d <= 900,
    ensures
        r == sine_spec(d),
        0 <= r <= UNIT,
{
    proof { reveal(sine_spec); }
    if d < 450 {
        if d < 225 {
            if d < 112 {
                if d < 56 {
                    if d < 28 {
                        if d < 14 {
                            if d < 7 {
                                if d < 3 {
                                    if d < 1 {
                                        0
                                    } else {
                                        if d < 2 {
                                            1745328
                                        } else {
                                            3490651
                                        }
                                    }
                                } else {
                                    if d < 5 {
                                        if d < 4 {
                                            5235963
                                        } else {
                                            6981260
                                        }
                                    } else {
                                        if d < 6 {
                                            8726535
                                        } else {
                                            10471784
                                        }
                                    }
                                }
                            } else {
                                if d < 10 {
                                    if d < 8 {
                                        12217000
                                    } else {
                                        if d < 9 {
                                            13962180
                                        } else {
                                            15707317
                                        }
                                    }
                                } else {
                                    if d < 12 {
                                        if d < 11 {
                                            17452406
                                        } else {
                                            19197442
                                        }
                                    } else {
                                        if d < 13 {
                                            20942419
                                        } else {
                                            22687333
                                        }
                                    }
                                }
                            }
                        } else {
                            if d < 21 {
                                if d < 17 {
                                    if d < 15 {
                                        24432178
                                    } else {
                                        if d < 16 {
                                            26176948
                                        } else {
                                            27921638
                                        }
                                    }
                                } else {
                                    if d < 19 {
                                        if d < 18 {
                                            29666244
                                        } else {
                                            31410759
                                        }
                                    } else {
                                        if d < 20 {
                                            33155178
                                        } else {
                                            34899496
                                        }
                                    }
                                }
                            } else {
                                if d < 24 {
                                    if d < 22 {
                                        36643708
                                    } else {
                                        if d < 23 {
                                            38387809
                                        } else {
                                            40131792
                                        }
                                    }
                                } else {
                                    if d < 26 {
                                        if d < 25 {
                                            41875653
                                        } else {
                                            43619387
                                        }
                                    } else {
                                        if d < 27 {
                                            45362988
                                        } else {
                                            47106450
                                        }
                                    }
                                }
                            }
                        }
                    } else {
                        if d < 42 {
                            if d < 35 {
                                if d < 31 {
                                    if d < 29 {
                                        48849769
                                    } else {
                                        if d < 30 {
                                            50592940
                                        } else {
                                            52335956
                                        }
                                    }
                                } else {
                                    if d < 33 {
                                        if d < 32 {
                                            54078812
                                        } else {
                                            55821504
                                        }
                                    } else {
                                        if d < 34 {
                                            57564026
                                        } else {
                                            59306373
                                        }
                                    }
                                }
                            } else {
                                if d < 38 {
                                    if d < 36 {
                                        61048539
                                    } else {
                                        if d < 37 {
                                            62790519
                                        } else {
                                            64532308
                                        }
                                    }
                                } else {
                                    if d < 40 {
                                        if d < 39 {
                                            66273900
                                        } else {
                                            68015290
                                        }
                                    } else {
                                        if d < 41 {
                                            69756473
                                        } else {
                                            71497444
                                        }
                                    }
                                }
                            }
                        } else {
                            if d < 49 {
                                if d < 45 {
                                    if d < 43 {
                                        73238197
                                    } else {
                                        if d < 44 {
                                            74978726
                                        } else {
                                            76719028
                                        }
                                    }
                                } else {
                                    if d < 47 {
                                        if d < 46 {
                                            78459095
                                        } else {
                                            80198924
                                        }
                                    } else {
                                        if d < 48 {
                                            81938508
                                        } else {
                                            83677843
                                        }
                                    }
                                }
                            } else {
                                if d < 52 {
                                    if d < 50 {
                                        85416923
                                    } else {
                                        if d < 51 {
                                            87155742
                                        } else {
                                            88894296
                                        }
                                    }
                                } else {
                                    if d < 54 {
                                        if d < 53 {
                                            90632580
                                        } else {
                                            92370587
                                        }
                                    } else {
                                        if d < 55 {
                                            94108313
                                        } else {
                                            95845752
                                        }
                                    }
                                }
                            }
                        }
                    }
                } else {
                    if d < 84 {
                        if d < 70 {
                            if d < 63 {
                                if d < 59 {
                                    if d < 57 {
                                        97582899
                                    } else {
                                        if d < 58 {
                                            99319749
                                        } else {
                                            101056297
                                        }
                                    }
                                } else {
                                    if d < 61 {
                                        if d < 60 {
                                            102792536
                                        } else {
                                            104528463
                                        }
                                    } else {
                                        if d < 62 {
                                            106264071
                                        } else {
                                            107999355
                                        }
                                    }
                                }
                            } else {
                                if d < 66 {
                                    if d < 64 {
                                        109734311
                                    } else {
                                        if d < 65 {
                                            111468932
                                        } else {
                                            113203213
                                        }
                                    }
                                } else {
                                    if d < 68 {
                                        if d < 67 {
                                            114937150
                                        } else {
                                            116670737
                                        }
                                    } else {
                                        if d < 69 {
                                            118403968
                                        } else {
                                            120136838
                                        }
                                    }
                                }
                            }
                        } else {
                            if d < 77 {
                                if d < 73 {
                                    if d < 71 {
                                        121869343
                                    } else {
                                        if d < 72 {
                                            123601476
                                        } else {
                                            125333233
                                        }
                                    }
                                } else {
                                    if d < 75 {
                                        if d < 74 {
                                            127064608
                                        } else {
                                            128795596
                                        }
                                    } else {
                                        if d < 76 {
                                            130526192
                                        } else {
                                            132256390
                                        }
                                    }
                                }
                            } else {
                                if d < 80 {
                                    if d < 78 {
                                        133986185
                                    } else {
                                        if d < 79 {
                                            135715572
                                        } else {
                                            137444546
                                        }
                                    }
                                } else {
                                    if d < 82 {
                                        if d < 81 {
                                            139173100
                                        } else {
                                            140901231
                                        }
                                    } else {
                                        if d < 83 {
                                            142628933
                                        } else {
                                            144356201
                                        }
                                    }
                                }
                            }
                        }
                    } else {
                        if d < 98 {
                            if d < 91 {
                                if d < 87 {
                                    if d < 85 {
                                        146083028
                                    } else {
                                        if d < 86 {
                                            147809411
                                        } else {
                                            149535343
                                        }
                                    }
                                } else {
                                    if d < 89 {
                                        if d < 88 {
                                            151260820
                                        } else {
                                            152985836
                                        }
                                    } else {
                                        if d < 90 {
                                            154710386
                                        } else {
                                            156434465
                                        }
                                    }
                                }
                            } else {
                                if d < 94 {
                                    if d < 92 {
                                        158158067
                                    } else {
                                        if d < 93 {
                                            159881187
                                        } else {
                                            161603821
                                        }
                                    }
                                } else {
                                    if d < 96 {
                                        if d < 95 {
                                            163325962
                                        } else {
                                            165047605
                                        }
                                    } else {
                                        if d < 97 {
                                            166768746
                                        } else {
                                            168489379
                                        }
                                    }
                                }
                            }
                        } else {
                            if d < 105 {
                                if d < 101 {
                                    if d < 99 {
                                        170209499
                                    } else {
                                        if d < 100 {
                                            171929100
                                        } else {
                                            173648177
                                        }
                                    }
                                } else {
                                    if d < 103 {
                                        if d < 102 {
                                            175366726
                                        } else {
                                            177084740
                                        }
                                    } else {
                                        if d < 104 {
                                            178802215
                                        } else {
                                            180519145
                                        }
                                    }
                                }
                            } else {
                                if d < 108 {
                                    if d < 106 {
                                        182235525
                                    } else {
                                        if d < 107 {
                                            183951350
                                        } else {
                                            185666615
                                        }
                                    }
                                } else {
                                    if d < 110 {
                                        if d < 109 {
                                            187381314
                                        } else {
                                            189095442
                                        }
                                    } else {
                                        if d < 111 {
                                            190808995
                                        } else {
                                            192521966
                                        }
                                    }
                                }
                            }
                        }
                    }
                }
            } else {
                if d < 168 {
                    if d < 140 {
                        if d < 126 {
                            if d < 119 {
                                if d < 115 {
                                    if d < 113 {
                                        194234351
                                    } else {
                                        if d < 114 {
                                            195946144
                                        } else {
                                            197657340
                                        }
                                    }
                                } else {
                                    if d < 117 {
                                        if d < 116 {
                                            199367934
                                        } else {
                                            201077921
                                        }
                                    } else {
                                        if d < 118 {
                                            202787295
                                        } else {
                                            204496051
                                        }
                                    }
                                }
                            } else {
                                if d < 122 {
                                    if d < 120 {
                                        206204185
                                    } else {
                                        if d < 121 {
                                            207911690
                                        } else {
                                            209618562
                                        }
                                    }
                                } else {
                                    if d < 124 {
                                        if d < 123 {
                                            211324796
                                        } else {
                                            213030386
                                        }
                                    } else {
                                        if d < 125 {
                                            214735327
                                        } else {
                                            216439613
                                        }
                                    }
                                }
                            }
                        } else {
                            if d < 133 {
                                if d < 129 {
                                    if d < 127 {
                                        218143241
                                    } else {
                                        if d < 128 {
                                            219846204
                                        } else {
                                            221548497
                                        }
                                    }
                                } else {
                                    if d < 131 {
                                        if d < 130 {
                                            223250116
                                        } else {
                                            224951054
                                        }
                                    } else {
                                        if d < 132 {
                                            226651307
                                        } else {
                                            228350870
                                        }
                                    }
                                }
                            } else {
                                if d < 136 {
                                    if d < 134 {
                                        230049737
                                    } else {
                                        if d < 135 {
                                            231747903
                                        } else {
                                            233445363
                                        }
                                    }
                                } else {
                                    if d < 138 {
                                        if d < 137 {
                                            235142113
                                        } else {
                                            236838146
                                        }
                                    } else {
                                        if d < 139 {
                                            238533457
                                        } else {
                                            240228042
                                        }
                                    }
                                }
                            }
                        }
                    } else {
                        if d < 154 {
                            if d < 147 {
                                if d < 143 {
                                    if d < 141 {
                                        241921895
                                    } else {
                                        if d < 142 {
                                            243615011
                                        } else {
                                            245307385
                                        }
                                    }
                                } else {
                                    if d < 145 {
                                        if d < 144 {
                                            246999012
                                        } else {
                                            248689887
                                        }
                                    } else {
                                        if d < 146 {
                                            250380004
                                        } else {
                                            252069358
                                        }
                                    }
                                }
                            } else {
                                if d < 150 {
                                    if d < 148 {
                                        253757944
                                    } else {
                                        if d < 149 {
                                            255445757
                                        } else {
                                            257132793
                                        }
                                    }
                                } else {
                                    if d < 152 {
                                        if d < 151 {
                                            258819045
                                        } else {
                                            260504508
                                        }
                                    } else {
                                        if d < 153 {
                                            262189178
                                        } else {
                                            263873049
                                        }
                                    }
                                }
                            }
                        } else {
                            if d < 161 {
                                if d < 157 {
                                    if d < 155 {
                                        265556117
                                    } else {
                                        if d < 156 {
                                            267238376
                                        } else {
                                            268919820
                                        }
                                    }
                                } else {
                                    if d < 159 {
                                        if d < 158 {
                                            270600445
                                        } else {
                                            272280247
                                        }
                                    } else {
                                        if d < 160 {
                                            273959218
                                        } else {
                                            275637355
                                        }
                                    }
                                }
                            } else {
                                if d < 164 {
                                    if d < 162 {
                                        277314653
                                    } else {
                                        if d < 163 {
                                            278991106
                                        } else {
                                            280666708
                                        }
                                    }
                                } else {
                                    if d < 166 {
                                        if d < 165 {
                                            282341456
                                        } else {
                                            284015344
                                        }
                                    } else {
                                        if d < 167 {
                                            285688367
                                        } else {
                                            287360519
                                        }
                                    }
                                }
                            }
                        }
                    }
                } else {
                    if d < 196 {
                        if d < 182 {
                            if d < 175 {
                                if d < 171 {
                                    if d < 169 {
                                        289031796
                                    } else {
                                        if d < 170 {
                                            290702193
                                        } else {
                                            292371704
                                        }
                                    }
                                } else {
                                    if d < 173 {
                                        if d < 172 {
                                            294040325
                                        } else {
                                            295708050
                                        }
                                    } else {
                                        if d < 174 {
                                            297374874
                                        } else {
                                            299040792
                                        }
                                    }
                                }
                            } else {
                                if d < 178 {
                                    if d < 176 {
                                        300705799
                                    } else {
                                        if d < 177 {
                                            302369890
                                        } else {
                                            304033060
                                        }
                                    }
                                } else {
                                    if d < 180 {
                                        if d < 179 {
                                            305695304
                                        } else {
                                            307356617
                                        }
                                    } else {
                                        if d < 181 {
                                            309016994
                                        } else {
                                            310676429
                                        }
                                    }
                                }
                            }
                        } else {
                            if d < 189 {
                                if d < 185 {
                                    if d < 183 {
                                        312334918
                                    } else {
                                        if d < 184 {
                                            313992455
                                        } else {
                                            315649036
                                        }
                                    }
                                } else {
                                    if d < 187 {
                                        if d < 186 {
                                            317304656
                                        } else {
                                            318959309
                                        }
                                    } else {
                                        if d < 188 {
                                            320612990
                                        } else {
                                            322265695
                                        }
                                    }
                                }
                            } else {
                                if d < 192 {
                                    if d < 190 {
                                        323917418
                                    } else {
                                        if d < 191 {
                                            325568154
                                        } else {
                                            327217898
                                        }
                                    }
                                } else {
                                    if d < 194 {
                                        if d < 193 {
                                            328866646
                                        } else {
                                            330514392
                                        }
                                    } else {
                                        if d < 195 {
                                            332161131
                                        } else {
                                            333806859
                                        }
                                    }
                                }
                            }
                        }
                    } else {
                        if d < 210 {
                            if d < 203 {
                                if d < 199 {
                                    if d < 197 {
                                        335451569
                                    } else {
                                        if d < 198 {
                                            337095258
                                        } else {
                                            338737920
                                        }
                                    }
                                } else {
                                    if d < 201 {
                                        if d < 200 {
                                            340379550
                                        } else {
                                            342020143
                                        }
                                    } else {
                                        if d < 202 {
                                            343659694
                                        } else {
                                            345298198
                                        }
                                    }
                                }
                            } else {
                                if d < 206 {
                                    if d < 204 {
                                        346935651
                                    } else {
                                        if d < 205 {
                                            348572047
                                        } else {
                                            350207381
                                        }
                                    }
                                } else {
                                    if d < 208 {
                                        if d < 207 {
                                            351841648
                                        } else {
                                            353474843
                                        }
                                    } else {
                                        if d < 209 {
                                            355106962
                                        } else {
                                            356737999
                                        }
                                    }
                                }
                            }
                        } else {
                            if d < 217 {
                                if d < 213 {
                                    if d < 211 {
                                        358367949
                                    } else {
                                        if d < 212 {
                                            359996808
                                        } else {
                                            361624570
                                        }
                                    }
                                } else {
                                    if d < 215 {
                                        if d < 214 {
                                            363251230
                                        } else {
                                            364876784
                                        }
                                    } else {
                                        if d < 216 {
                                            366501226
                                        } else {
                                            368124552
                                        }
                                    }
                                }
                            } else {
                                if d < 221 {
                                    if d < 219 {
                                        if d < 218 {
                                            369746757
                                        } else {
                                            371367835
                                        }
                                    } else {
                                        if d < 220 {
                                            372987782
                                        } else {
                                            374606593
                                        }
                                    }
                                } else {
                                    if d < 223 {
                                        if d < 222 {
                                            376224263
                                        } else {
                                            377840786
                                        }
                                    } else {
                                        if d < 224 {
                                            379456159
                                        } else {
                                            381070376
                                        }
                                    }
                                }
                            }
                        }
                    }
                }
            }
        } else {
            if d < 337 {
                if d < 281 {
                    if d < 253 {
                        if d < 239 {
                            if d < 232 {
                                if d < 228 {
                                    if d < 226 {
                                        382683432
                                    } else {
                                        if d < 227 {
                                            384295322
                                        } else {
                                            385906042
                                        }
                                    }
                                } else {
                                    if d < 230 {
                                        if d < 229 {
                                            387515586
                                        } else {
                                            389123950
                                        }
                                    } else {
                                        if d < 231 {
                                            390731128
                                        } else {
                                            392337116
                                        }
                                    }
                                }
                            } else {
                                if d < 235 {
                                    if d < 233 {
                                        393941909
                                    } else {
                                        if d < 234 {
                                            395545502
                                        } else {
                                            397147890
                                        }
                                    }
                                } else {
                                    if d < 237 {
                                        if d < 236 {
                                            398749068
                                        } else {
                                            400349032
                                        }
                                    } else {
                                        if d < 238 {
                                            401947776
                                        } else {
                                            403545296
                                        }
                                    }
                                }
                            }
                        } else {
                            if d < 246 {
                                if d < 242 {
                                    if d < 240 {
                                        405141586
                                    } else {
                                        if d < 241 {
                                            406736643
                                        } else {
                                            408330460
                                        }
                                    }
                                } else {
                                    if d < 244 {
                                        if d < 243 {
                                            409923033
                                        } else {
                                            411514358
                                        }
                                    } else {
                                        if d < 245 {
                                            413104429
                                        } else {
                                            414693242
                                        }
                                    }
                                }
                            } else {
                                if d < 249 {
                                    if d < 247 {
                                        416280792
                                    } else {
                                        if d < 248 {
                                            417867073
                                        } else {
                                            419452082
                                        }
                                    }
                                } else {
                                    if d < 251 {
                                        if d < 250 {
                                            421035813
                                        } else {
                                            422618261
                                        }
                                    } else {
                                        if d < 252 {
                                            424199422
                                        } else {
                                            425779291
                                        }
                                    }
                                }
                            }
                        }
                    } else {
                        if d < 267 {
                            if d < 260 {
                                if d < 256 {
                                    if d < 254 {
                                        427357863
                                    } else {
                                        if d < 255 {
                                            428935133
                                        } else {
                                            430511096
                                        }
                                    }
                                } else {
                                    if d < 258 {
                                        if d < 257 {
                                            432085748
                                        } else {
                                            433659084
                                        }
                                    } else {
                                        if d < 259 {
                                            435231099
                                        } else {
                                            436801788
                                        }
                                    }
                                }
                            } else {
                                if d < 263 {
                                    if d < 261 {
                                        438371146
                                    } else {
                                        if d < 262 {
                                            439939169
                                        } else {
                                            441505852
                                        }
                                    }
                                } else {
                                    if d < 265 {
                                        if d < 264 {
                                            443071190
                                        } else {
                                            444635179
                                        }
                                    } else {
                                        if d < 266 {
                                            446197813
                                        } else {
                                            447759087
                                        }
                                    }
                                }
                            }
                        } else {
                            if d < 274 {
                                if d < 270 {
                                    if d < 268 {
                                        449318998
                                    } else {
                                        if d < 269 {
                                            450877540
                                        } else {
                                            452434709
                                        }
                                    }
                                } else {
                                    if d < 272 {
                                        if d < 271 {
                                            453990499
                                        } else {
                                            455544907
                                        }
                                    } else {
                                        if d < 273 {
                                            457097927
                                        } else {
                                            458649554
                                        }
                                    }
                                }
                            } else {
                                if d < 277 {
                                    if d < 275 {
                                        460199784
                                    } else {
                                        if d < 276 {
                                            461748613
                                        } else {
                                            463296035
                                        }
                                    }
                                } else {
                                    if d < 279 {
                                        if d < 278 {
                                            464842045
                                        } else {
                                            466386640
                                        }
                                    } else {
                                        if d < 280 {
                                            467929814
                                        } else {
                                            469471562
                                        }
                                    }
                                }
                            }
                        }
                    }
                } else {
                    if d < 309 {
                        if d < 295 {
                            if d < 288 {
                                if d < 284 {
                                    if d < 282 {
                                        471011881
                                    } else {
                                        if d < 283 {
                                            472550764
                                        } else {
                                            474088209
                                        }
                                    }
                                } else {
                                    if d < 286 {
                                        if d < 285 {
                                            475624209
                                        } else {
                                            477158760
                                        }
                                    } else {
                                        if d < 287 {
                                            478691857
                                        } else {
                                            480223497
                                        }
                                    }
                                }
                            } else {
                                if d < 291 {
                                    if d < 289 {
                                        481753674
                                    } else {
                                        if d < 290 {
                                            483282383
                                        } else {
                                            484809620
                                        }
                                    }
                                } else {
                                    if d < 293 {
                                        if d < 292 {
                                            486335380
                                        } else {
                                            487859659
                                        }
                                    } else {
                                        if d < 294 {
                                            489382451
                                        } else {
                                            490903753
                                        }
                                    }
                                }
                            }
                        } else {
                            if d < 302 {
                                if d < 298 {
                                    if d < 296 {
                                        492423560
                                    } else {
                                        if d < 297 {
                                            493941866
                                        } else {
                                            495458668
                                        }
                                    }
                                } else {
                                    if d < 300 {
                                        if d < 299 {
                                            496973961
                                        } else {
                                            498487739
                                        }
                                    } else {
                                        if d < 301 {
                                            500000000
                                        } else {
                                            501510737
                                        }
                                    }
                                }
                            } else {
                                if d < 305 {
                                    if d < 303 {
                                        503019946
                                    } else {
                                        if d < 304 {
                                            504527623
                                        } else {
                                            506033764
                                        }
                                    }
                                } else {
                                    if d < 307 {
                                        if d < 306 {
                                            507538362
                                        } else {
                                            509041415
                                        }
                                    } else {
                                        if d < 308 {
                                            510542917
                                        } else {
                                            512042864
                                        }
                                    }
                                }
                            }
                        }
                    } else {
                        if d < 323 {
                            if d < 316 {
                                if d < 312 {
                                    if d < 310 {
                                        513541252
                                    } else {
                                        if d < 311 {
                                            515038074
                                        } else {
                                            516533328
                                        }
                                    }
                                } else {
                                    if d < 314 {
                                        if d < 313 {
                                            518027009
                                        } else {
                                            519519111
                                        }
                                    } else {
                                        if d < 315 {
                                            521009631
                                        } else {
                                            522498564
                                        }
                                    }
                                }
                            } else {
                                if d < 319 {
                                    if d < 317 {
                                        523985905
                                    } else {
                                        if d < 318 {
                                            525471651
                                        } else {
                                            526955795
                                        }
                                    }
                                } else {
                                    if d < 321 {
                                        if d < 320 {
                                            528438334
                                        } else {
                                            529919264
                                        }
                                    } else {
                                        if d < 322 {
                                            531398579
                                        } else {
                                            532876276
                                        }
                                    }
                                }
                            }
                        } else {
                            if d < 330 {
                                if d < 326 {
                                    if d < 324 {
                                        534352349
                                    } else {
                                        if d < 325 {
                                            535826794
                                        } else {
                                            537299608
                                        }
                                    }
                                } else {
                                    if d < 328 {
                                        if d < 327 {
                                            538770785
                                        } else {
                                            540240320
                                        }
                                    } else {
                                        if d < 329 {
                                            541708210
                                        } else {
                                            543174449
                                        }
                                    }
                                }
                            } else {
                                if d < 333 {
                                    if d < 331 {
                                        544639035
                                    } else {
                                        if d < 332 {
                                            546101961
                                        } else {
                                            547563223
                                        }
                                    }
                                } else {
                                    if d < 335 {
                                        if d < 334 {
                                            549022817
                                        } else {
                                            550480740
                                        }
                                    } else {
                                        if d < 336 {
                                            551936985
                                        } else {
                                            553391549
                                        }
                                    }
                                }
                            }
                        }
                    }
                }
            } else {
                if d < 393 {
                    if d < 365 {
                        if d < 351 {
                            if d < 344 {
                                if d < 340 {
                                    if d < 338 {
                                        554844427
                                    } else {
                                        if d < 339 {
                                            556295615
                                        } else {
                                            557745108
                                        }
                                    }
                                } else {
                                    if d < 342 {
                                        if d < 341 {
                                            559192903
                                        } else {
                                            560638994
                                        }
                                    } else {
                                        if d < 343 {
                                            562083377
                                        } else {
                                            563526048
                                        }
                                    }
                                }
                            } else {
                                if d < 347 {
                                    if d < 345 {
                                        564967003
                                    } else {
                                        if d < 346 {
                                            566406236
                                        } else {
                                            567843745
                                        }
                                    }
                                } else {
                                    if d < 349 {
                                        if d < 348 {
                                            569279523
                                        } else {
                                            570713567
                                        }
                                    } else {
                                        if d < 350 {
                                            572145873
                                        } else {
                                            573576436
                                        }
                                    }
                                }
                            }
                        } else {
                            if d < 358 {
                                if d < 354 {
                                    if d < 352 {
                                        575005252
                                    } else {
                                        if d < 353 {
                                            576432316
                                        } else {
                                            577857624
                                        }
                                    }
                                } else {
                                    if d < 356 {
                                        if d < 355 {
                                            579281172
                                        } else {
                                            580702955
                                        }
                                    } else {
                                        if d < 357 {
                                            582122970
                                        } else {
                                            583541211
                                        }
                                    }
                                }
                            } else {
                                if d < 361 {
                                    if d < 359 {
                                        584957674
                                    } else {
                                        if d < 360 {
                                            586372356
                                        } else {
                                            587785252
                                        }
                                    }
                                } else {
                                    if d < 363 {
                                        if d < 362 {
                                            589196357
                                        } else {
                                            590605667
                                        }
                                    } else {
                                        if d < 364 {
                                            592013178
                                        } else {
                                            593418886
                                        }
                                    }
                                }
                            }
                        }
                    } else {
                        if d < 379 {
                            if d < 372 {
                                if d < 368 {
                                    if d < 366 {
                                        594822786
                                    } else {
                                        if d < 367 {
                                            596224874
                                        } else {
                                            597625146
                                        }
                                    }
                                } else {
                                    if d < 370 {
                                        if d < 369 {
                                            599023598
                                        } else {
                                            600420225
                                        }
                                    } else {
                                        if d < 371 {
                                            601815023
                                        } else {
                                            603207987
                                        }
                                    }
                                }
                            } else {
                                if d < 375 {
                                    if d < 373 {
                                        604599114
                                    } else {
                                        if d < 374 {
                                            605988400
                                        } else {
                                            607375839
                                        }
                                    }
                                } else {
                                    if d < 377 {
                                        if d < 376 {
                                            608761429
                                        } else {
                                            610145163
                                        }
                                    } else {
                                        if d < 378 {
                                            611527040
                                        } else {
                                            612907053
                                        }
                                    }
                                }
                            }
                        } else {
                            if d < 386 {
                                if d < 382 {
                                    if d < 380 {
                                        614285200
                                    } else {
                                        if d < 381 {
                                            615661475
                                        } else {
                                            617035875
                                        }
                                    }
                                } else {
                                    if d < 384 {
                                        if d < 383 {
                                            618408395
                                        } else {
                                            619779031
                                        }
                                    } else {
                                        if d < 385 {
                                            621147780
                                        } else {
                                            622514636
                                        }
                                    }
                                }
                            } else {
                                if d < 389 {
                                    if d < 387 {
                                        623879596
                                    } else {
                                        if d < 388 {
                                            625242656
                                        } else {
                                            626603811
                                        }
                                    }
                                } else {
                                    if d < 391 {
                                        if d < 390 {
                                            627963057
                                        } else {
                                            629320391
                                        }
                                    } else {
                                        if d < 392 {
                                            630675807
                                        } else {
                                            632029302
                                        }
                                    }
                                }
                            }
                        }
                    }
                } else {
                    if d < 421 {
                        if d < 407 {
                            if d < 400 {
                                if d < 396 {
                                    if d < 394 {
                                        633380872
                                    } else {
                                        if d < 395 {
                                            634730513
                                        } else {
                                            636078220
                                        }
                                    }
                                } else {
                                    if d < 398 {
                                        if d < 397 {
                                            637423989
                                        } else {
                                            638767817
                                        }
                                    } else {
                                        if d < 399 {
                                            640109699
                                        } else {
                                            641449631
                                        }
                                    }
                                }
                            } else {
                                if d < 403 {
                                    if d < 401 {
                                        642787609
                                    } else {
                                        if d < 402 {
                                            644123629
                                        } else {
                                            645457687
                                        }
                                    }
                                } else {
                                    if d < 405 {
                                        if d < 404 {
                                            646789779
                                        } else {
                                            648119901
                                        }
                                    } else {
                                        if d < 406 {
                                            649448048
                                        } else {
                                            650774217
                                        }
                                    }
                                }
                            }
                        } else {
                            if d < 414 {
                                if d < 410 {
                                    if d < 408 {
                                        652098403
                                    } else {
                                        if d < 409 {
                                            653420603
                                        } else {
                                            654740813
                                        }
                                    }
                                } else {
                                    if d < 412 {
                                        if d < 411 {
                                            656059028
                                        } else {
                                            657375245
                                        }
                                    } else {
                                        if d < 413 {
                                            658689460
                                        } else {
                                            660001667
                                        }
                                    }
                                }
                            } else {
                                if d < 417 {
                                    if d < 415 {
                                        661311865
                                    } else {
                                        if d < 416 {
                                            662620048
                                        } else {
                                            663926212
                                        }
                                    }
                                } else {
                                    if d < 419 {
                                        if d < 418 {
                                            665230354
                                        } else {
                                            666532470
                                        }
                                    } else {
                                        if d < 420 {
                                            667832555
                                        } else {
                                            669130606
                                        }
                                    }
                                }
                            }
                        }
                    } else {
                        if d < 435 {
                            if d < 428 {
                                if d < 424 {
                                    if d < 422 {
                                        670426618
                                    } else {
                                        if d < 423 {
                                            671720589
                                        } else {
                                            673012513
                                        }
                                    }
                                } else {
                                    if d < 426 {
                                        if d < 425 {
                                            674302387
                                        } else {
                                            675590207
                                        }
                                    } else {
                                        if d < 427 {
                                            676875969
                                        } else {
                                            678159669
                                        }
                                    }
                                }
                            } else {
                                if d < 431 {
                                    if d < 429 {
                                        679441304
                                    } else {
                                        if d < 430 {
                                            680720868
                                        } else {
                                            681998360
                                        }
                                    }
                                } else {
                                    if d < 433 {
                                        if d < 432 {
                                            683273773
                                        } else {
                                            684547105
                                        }
                                    } else {
                                        if d < 434 {
                                            685818352
                                        } else {
                                            687087510
                                        }
                                    }
                                }
                            }
                        } else {
                            if d < 442 {
                                if d < 438 {
                                    if d < 436 {
                                        688354575
                                    } else {
                                        if d < 437 {
                                            689619543
                                        } else {
                                            690882411
                                        }
                                    }
                                } else {
                                    if d < 440 {
                                        if d < 439 {
                                            692143173
                                        } else {
                                            693401828
                                        }
                                    } else {
                                        if d < 441 {
                                            694658370
                                        } else {
                                            695912796
                                        }
                                    }
                                }
                            } else {
                                if d < 446 {
                                    if d < 444 {
                                        if d < 443 {
                                            697165102
                                        } else {
                                            698415285
                                        }
                                    } else {
                                        if d < 445 {
                                            699663340
                                        } else {
                                            700909264
                                        }
                                    }
                                } else {
                                    if d < 448 {
                                        if d < 447 {
                                            702153052
                                        } else {
                                            703394702
                                        }
                                    } else {
                                        if d < 449 {
                                            704634209
                                        } else {
                                            705871570
                                        }
                                    }
                                }
                            }
                        }
                    }
                }
            }
        }
    } else {
        if d < 675 {
            if d < 562 {
                if d < 506 {
                    if d < 478 {
                        if d < 464 {
                            if d < 457 {
                                if d < 453 {
                                    if d < 451 {
                                        707106781
                                    } else {
                                        if d < 452 {
                                            708339837
                                        } else {
                                            709570736
                                        }
                                    }
                                } else {
                                    if d < 455 {
                                        if d < 454 {
                                            710799473
                                        } else {
                                            712026045
                                        }
                                    } else {
                                        if d < 456 {
                                            713250449
                                        } else {
                                            714472679
                                        }
                                    }
                                }
                            } else {
                                if d < 460 {
                                    if d < 458 {
                                        715692733
                                    } else {
                                        if d < 459 {
                                            716910607
                                        } else {
                                            718126297
                                        }
                                    }
                                } else {
                                    if d < 462 {
                                        if d < 461 {
                                            719339800
                                        } else {
                                            720551111
                                        }
                                    } else {
                                        if d < 463 {
                                            721760228
                                        } else {
                                            722967145
                                        }
                                    }
                                }
                            }
                        } else {
                            if d < 471 {
                                if d < 467 {
                                    if d < 465 {
                                        724171861
                                    } else {
                                        if d < 466 {
                                            725374371
                                        } else {
                                            726574670
                                        }
                                    }
                                } else {
                                    if d < 469 {
                                        if d < 468 {
                                            727772757
                                        } else {
                                            728968627
                                        }
                                    } else {
                                        if d < 470 {
                                            730162276
                                        } else {
                                            731353701
                                        }
                                    }
                                }
                            } else {
                                if d < 474 {
                                    if d < 472 {
                                        732542898
                                    } else {
                                        if d < 473 {
                                            733729864
                                        } else {
                                            734914595
                                        }
                                    }
                                } else {
                                    if d < 476 {
                                        if d < 475 {
                                            736097087
                                        } else {
                                            737277336
                                        }
                                    } else {
                                        if d < 477 {
                                            738455340
                                        } else {
                                            739631094
                                        }
                                    }
                                }
                            }
                        }
                    } else {
                        if d < 492 {
                            if d < 485 {
                                if d < 481 {
                                    if d < 479 {
                                        740804596
                                    } else {
                                        if d < 480 {
                                            741975840
                                        } else {
                                            743144825
                                        }
                                    }
                                } else {
                                    if d < 483 {
                                        if d < 482 {
                                            744311546
                                        } else {
                                            745475999
                                        }
                                    } else {
                                        if d < 484 {
                                            746638182
                                        } else {
                                            747798090
                                        }
                                    }
                                }
                            } else {
                                if d < 488 {
                                    if d < 486 {
                                        748955720
                                    } else {
                                        if d < 487 {
                                            750111069
                                        } else {
                                            751264133
                                        }
                                    }
                                } else {
                                    if d < 490 {
                                        if d < 489 {
                                            752414908
                                        } else {
                                            753563392
                                        }
                                    } else {
                                        if d < 491 {
                                            754709580
                                        } else {
                                            755853469
                                        }
                                    }
                                }
                            }
                        } else {
                            if d < 499 {
                                if d < 495 {
                                    if d < 493 {
                                        756995055
                                    } else {
                                        if d < 494 {
                                            758134336
                                        } else {
                                            759271307
                                        }
                                    }
                                } else {
                                    if d < 497 {
                                        if d < 496 {
                                            760405965
                                        } else {
                                            761538307
                                        }
                                    } else {
                                        if d < 498 {
                                            762668329
                                        } else {
                                            763796028
                                        }
                                    }
                                }
                            } else {
                                if d < 502 {
                                    if d < 500 {
                                        764921400
                                    } else {
                                        if d < 501 {
                                            766044443
                                        } else {
                                            767165151
                                        }
                                    }
                                } else {
                                    if d < 504 {
                                        if d < 503 {
                                            768283523
                                        } else {
                                            769399555
                                        }
                                    } else {
                                        if d < 505 {
                                            770513242
                                        } else {
                                            771624583
                                        }
                                    }
                                }
                            }
                        }
                    }
                } else {
                    if d < 534 {
                        if d < 520 {
                            if d < 513 {
                                if d < 509 {
                                    if d < 507 {
                                        772733573
                                    } else {
                                        if d < 508 {
                                            773840209
                                        } else {
                                            774944488
                                        }
                                    }
                                } else {
                                    if d < 511 {
                                        if d < 510 {
                                            776046407
                                        } else {
                                            777145961
                                        }
                                    } else {
                                        if d < 512 {
                                            778243148
                                        } else {
                                            779337964
                                        }
                                    }
                                }
                            } else {
                                if d < 516 {
                                    if d < 514 {
                                        780430407
                                    } else {
                                        if d < 515 {
                                            781520472
                                        } else {
                                            782608156
                                        }
                                    }
                                } else {
                                    if d < 518 {
                                        if d < 517 {
                                            783693457
                                        } else {
                                            784776370
                                        }
                                    } else {
                                        if d < 519 {
                                            785856893
                                        } else {
                                            786935021
                                        }
                                    }
                                }
                            }
                        } else {
                            if d < 527 {
                                if d < 523 {
                                    if d < 521 {
                                        788010753
                                    } else {
                                        if d < 522 {
                                            789084084
                                        } else {
                                            790155012
                                        }
                                    }
                                } else {
                                    if d < 525 {
                                        if d < 524 {
                                            791223532
                                        } else {
                                            792289643
                                        }
                                    } else {
                                        if d < 526 {
                                            793353340
                                        } else {
                                            794414620
                                        }
                                    }
                                }
                            } else {
                                if d < 530 {
                                    if d < 528 {
                                        795473480
                                    } else {
                                        if d < 529 {
                                            796529918
                                        } else {
                                            797583928
                                        }
                                    }
                                } else {
                                    if d < 532 {
                                        if d < 531 {
                                            798635510
                                        } else {
                                            799684658
                                        }
                                    } else {
                                        if d < 533 {
                                            800731370
                                        } else {
                                            801775644
                                        }
                                    }
                                }
                            }
                        }
                    } else {
                        if d < 548 {
                            if d < 541 {
                                if d < 537 {
                                    if d < 535 {
                                        802817475
                                    } else {
                                        if d < 536 {
                                            803856860
                                        } else {
                                            804893797
                                        }
                                    }
                                } else {
                                    if d < 539 {
                                        if d < 538 {
                                            805928282
                                        } else {
                                            806960312
                                        }
                                    } else {
                                        if d < 540 {
                                            807989883
                                        } else {
                                            809016994
                                        }
                                    }
                                }
                            } else {
                                if d < 544 {
                                    if d < 542 {
                                        810041640
                                    } else {
                                        if d < 543 {
                                            811063818
                                        } else {
                                            812083526
                                        }
                                    }
                                } else {
                                    if d < 546 {
                                        if d < 545 {
                                            813100761
                                        } else {
                                            814115518
                                        }
                                    } else {
                                        if d < 547 {
                                            815127795
                                        } else {
                                            816137590
                                        }
                                    }
                                }
                            }
                        } else {
                            if d < 555 {
                                if d < 551 {
                                    if d < 549 {
                                        817144898
                                    } else {
                                        if d < 550 {
                                            818149717
                                        } else {
                                            819152044
                                        }
                                    }
                                } else {
                                    if d < 553 {
                                        if d < 552 {
                                            820151875
                                        } else {
                                            821149209
                                        }
                                    } else {
                                        if d < 554 {
                                            822144041
                                        } else {
                                            823136368
                                        }
                                    }
                                }
                            } else {
                                if d < 558 {
                                    if d < 556 {
                                        824126188
                                    } else {
                                        if d < 557 {
                                            825113498
                                        } else {
                                            826098294
                                        }
                                    }
                                } else {
                                    if d < 560 {
                                        if d < 559 {
                                            827080574
                                        } else {
                                            828060334
                                        }
                                    } else {
                                        if d < 561 {
                                            829037572
                                        } else {
                                            830012285
                                        }
                                    }
                                }
                            }
                        }
                    }
                }
            } else {
                if d < 618 {
                    if d < 590 {
                        if d < 576 {
                            if d < 569 {
                                if d < 565 {
                                    if d < 563 {
                                        830984469
                                    } else {
                                        if d < 564 {
                                            831954122
                                        } else {
                                            832921240
                                        }
                                    }
                                } else {
                                    if d < 567 {
                                        if d < 566 {
                                            833885822
                                        } else {
                                            834847863
                                        }
                                    } else {
                                        if d < 568 {
                                            835807361
                                        } else {
                                            836764313
                                        }
                                    }
                                }
                            } else {
                                if d < 572 {
                                    if d < 570 {
                                        837718716
                                    } else {
                                        if d < 571 {
                                            838670567
                                        } else {
                                            839619864
                                        }
                                    }
                                } else {
                                    if d < 574 {
                                        if d < 573 {
                                            840566603
                                        } else {
                                            841510781
                                        }
                                    } else {
                                        if d < 575 {
                                            842452397
                                        } else {
                                            843391445
                                        }
                                    }
                                }
                            }
                        } else {
                            if d < 583 {
                                if d < 579 {
                                    if d < 577 {
                                        844327925
                                    } else {
                                        if d < 578 {
                                            845261833
                                        } else {
                                            846193166
                                        }
                                    }
                                } else {
                                    if d < 581 {
                                        if d < 580 {
                                            847121921
                                        } else {
                                            848048096
                                        }
                                    } else {
                                        if d < 582 {
                                            848971687
                                        } else {
                                            849892692
                                        }
                                    }
                                }
                            } else {
                                if d < 586 {
                                    if d < 584 {
                                        850811109
                                    } else {
                                        if d < 585 {
                                            851726934
                                        } else {
                                            852640164
                                        }
                                    }
                                } else {
                                    if d < 588 {
                                        if d < 587 {
                                            853550797
                                        } else {
                                            854458830
                                        }
                                    } else {
                                        if d < 589 {
                                            855364260
                                        } else {
                                            856267084
                                        }
                                    }
                                }
                            }
                        }
                    } else {
                        if d < 604 {
                            if d < 597 {
                                if d < 593 {
                                    if d < 591 {
                                        857167300
                                    } else {
                                        if d < 592 {
                                            858064905
                                        } else {
                                            858959896
                                        }
                                    }
                                } else {
                                    if d < 595 {
                                        if d < 594 {
                                            859852271
                                        } else {
                                            860742027
                                        }
                                    } else {
                                        if d < 596 {
                                            861629160
                                        } else {
                                            862513669
                                        }
                                    }
                                }
                            } else {
                                if d < 600 {
                                    if d < 598 {
                                        863395550
                                    } else {
                                        if d < 599 {
                                            864274801
                                        } else {
                                            865151420
                                        }
                                    }
                                } else {
                                    if d < 602 {
                                        if d < 601 {
                                            866025403
                                        } else {
                                            866896748
                                        }
                                    } else {
                                        if d < 603 {
                                            867765453
                                        } else {
                                            868631514
                                        }
                                    }
                                }
                            }
                        } else {
                            if d < 611 {
                                if d < 607 {
                                    if d < 605 {
                                        869494929
                                    } else {
                                        if d < 606 {
                                            870355695
                                        } else {
                                            871213811
                                        }
                                    }
                                } else {
                                    if d < 609 {
                                        if d < 608 {
                                            872069272
                                        } else {
                                            872922077
                                        }
                                    } else {
                                        if d < 610 {
                                            873772223
                                        } else {
                                            874619707
                                        }
                                    }
                                }
                            } else {
                                if d < 614 {
                                    if d < 612 {
                                        875464527
                                    } else {
                                        if d < 613 {
                                            876306680
                                        } else {
                                            877146163
                                        }
                                    }
                                } else {
                                    if d < 616 {
                                        if d < 615 {
                                            877982975
                                        } else {
                                            878817112
                                        }
                                    } else {
                                        if d < 617 {
                                            879648572
                                        } else {
                                            880477353
                                        }
                                    }
                                }
                            }
                        }
                    }
                } else {
                    if d < 646 {
                        if d < 632 {
                            if d < 625 {
                                if d < 621 {
                                    if d < 619 {
                                        881303452
                                    } else {
                                        if d < 620 {
                                            882126866
                                        } else {
                                            882947592
                                        }
                                    }
                                } else {
                                    if d < 623 {
                                        if d < 622 {
                                            883765630
                                        } else {
                                            884580975
                                        }
                                    } else {
                                        if d < 624 {
                                            885393625
                                        } else {
                                            886203579
                                        }
                                    }
                                }
                            } else {
                                if d < 628 {
                                    if d < 626 {
                                        887010833
                                    } else {
                                        if d < 627 {
                                            887815385
                                        } else {
                                            888617232
                                        }
                                    }
                                } else {
                                    if d < 630 {
                                        if d < 629 {
                                            889416373
                                        } else {
                                            890212804
                                        }
                                    } else {
                                        if d < 631 {
                                            891006524
                                        } else {
                                            891797529
                                        }
                                    }
                                }
                            }
                        } else {
                            if d < 639 {
                                if d < 635 {
                                    if d < 633 {
                                        892585818
                                    } else {
                                        if d < 634 {
                                            893371388
                                        } else {
                                            894154236
                                        }
                                    }
                                } else {
                                    if d < 637 {
                                        if d < 636 {
                                            894934361
                                        } else {
                                            895711760
                                        }
                                    } else {
                                        if d < 638 {
                                            896486430
                                        } else {
                                            897258369
                                        }
                                    }
                                }
                            } else {
                                if d < 642 {
                                    if d < 640 {
                                        898027575
                                    } else {
                                        if d < 641 {
                                            898794046
                                        } else {
                                            899557778
                                        }
                                    }
                                } else {
                                    if d < 644 {
                                        if d < 643 {
                                            900318771
                                        } else {
                                            901077021
                                        }
                                    } else {
                                        if d < 645 {
                                            901832526
                                        } else {
                                            902585284
                                        }
                                    }
                                }
                            }
                        }
                    } else {
                        if d < 660 {
                            if d < 653 {
                                if d < 649 {
                                    if d < 647 {
                                        903335292
                                    } else {
                                        if d < 648 {
                                            904082549
                                        } else {
                                            904827052
                                        }
                                    }
                                } else {
                                    if d < 651 {
                                        if d < 650 {
                                            905568799
                                        } else {
                                            906307787
                                        }
                                    } else {
                                        if d < 652 {
                                            907044014
                                        } else {
                                            907777478
                                        }
                                    }
                                }
                            } else {
                                if d < 656 {
                                    if d < 654 {
                                        908508177
                                    } else {
                                        if d < 655 {
                                            909236109
                                        } else {
                                            909961270
                                        }
                                    }
                                } else {
                                    if d < 658 {
                                        if d < 657 {
                                            910683660
                                        } else {
                                            911403276
                                        }
                                    } else {
                                        if d < 659 {
                                            912120116
                                        } else {
                                            912834177
                                        }
                                    }
                                }
                            }
                        } else {
                            if d < 667 {
                                if d < 663 {
                                    if d < 661 {
                                        913545457
                                    } else {
                                        if d < 662 {
                                            914253955
                                        } else {
                                            914959667
                                        }
                                    }
                                } else {
                                    if d < 665 {
                                        if d < 664 {
                                            915662593
                                        } else {
                                            916362729
                                        }
                                    } else {
                                        if d < 666 {
                                            917060074
                                        } else {
                                            917754625
                                        }
                                    }
                                }
                            } else {
                                if d < 671 {
                                    if d < 669 {
                                        if d < 668 {
                                            918446381
                                        } else {
                                            919135339
                                        }
                                    } else {
                                        if d < 670 {
                                            919821497
                                        } else {
                                            920504853
                                        }
                                    }
                                } else {
                                    if d < 673 {
                                        if d < 672 {
                                            921185405
                                        } else {
                                            921863151
                                        }
                                    } else {
                                        if d < 674 {
                                            922538089
                                        } else {
                                            923210217
                                        }
                                    }
                                }
                            }
                        }
                    }
                }
            }
        } else {
            if d < 788 {
                if d < 731 {
                    if d < 703 {
                        if d < 689 {
                            if d < 682 {
                                if d < 678 {
                                    if d < 676 {
                                        923879532
                                    } else {
                                        if d < 677 {
                                            924546033
                                        } else {
                                            925209718
                                        }
                                    }
                                } else {
                                    if d < 680 {
                                        if d < 679 {
                                            925870584
                                        } else {
                                            926528630
                                        }
                                    } else {
                                        if d < 681 {
                                            927183854
                                        } else {
                                            927836253
                                        }
                                    }
                                }
                            } else {
                                if d < 685 {
                                    if d < 683 {
                                        928485826
                                    } else {
                                        if d < 684 {
                                            929132571
                                        } else {
                                            929776485
                                        }
                                    }
                                } else {
                                    if d < 687 {
                                        if d < 686 {
                                            930417567
                                        } else {
                                            931055815
                                        }
                                    } else {
                                        if d < 688 {
                                            931691227
                                        } else {
                                            932323801
                                        }
                                    }
                                }
                            }
                        } else {
                            if d < 696 {
                                if d < 692 {
                                    if d < 690 {
                                        932953534
                                    } else {
                                        if d < 691 {
                                            933580426
                                        } else {
                                            934204474
                                        }
                                    }
                                } else {
                                    if d < 694 {
                                        if d < 693 {
                                            934825676
                                        } else {
                                            935444030
                                        }
                                    } else {
                                        if d < 695 {
                                            936059535
                                        } else {
                                            936672189
                                        }
                                    }
                                }
                            } else {
                                if d < 699 {
                                    if d < 697 {
                                        937281989
                                    } else {
                                        if d < 698 {
                                            937888934
                                        } else {
                                            938493022
                                        }
                                    }
                                } else {
                                    if d < 701 {
                                        if d < 700 {
                                            939094252
                                        } else {
                                            939692620
                                        }
                                    } else {
                                        if d < 702 {
                                            940288127
                                        } else {
                                            940880768
                                        }
                                    }
                                }
                            }
                        }
                    } else {
                        if d < 717 {
                            if d < 710 {
                                if d < 706 {
                                    if d < 704 {
                                        941470544
                                    } else {
                                        if d < 705 {
                                            942057452
                                        } else {
                                            942641491
                                        }
                                    }
                                } else {
                                    if d < 708 {
                                        if d < 707 {
                                            943222657
                                        } else {
                                            943800951
                                        }
                                    } else {
                                        if d < 709 {
                                            944376370
                                        } else {
                                            944948912
                                        }
                                    }
                                }
                            } else {
                                if d < 713 {
                                    if d < 711 {
                                        945518575
                                    } else {
                                        if d < 712 {
                                            946085358
                                        } else {
                                            946649260
                                        }
                                    }
                                } else {
                                    if d < 715 {
                                        if d < 714 {
                                            947210277
                                        } else {
                                            947768410
                                        }
                                    } else {
                                        if d < 716 {
                                            948323655
                                        } else {
                                            948876011
                                        }
                                    }
                                }
                            }
                        } else {
                            if d < 724 {
                                if d < 720 {
                                    if d < 718 {
                                        949425477
                                    } else {
                                        if d < 719 {
                                            949972051
                                        } else {
                                            950515731
                                        }
                                    }
                                } else {
                                    if d < 722 {
                                        if d < 721 {
                                            951056516
                                        } else {
                                            951594403
                                        }
                                    } else {
                                        if d < 723 {
                                            952129392
                                        } else {
                                            952661481
                                        }
                                    }
                                }
                            } else {
                                if d < 727 {
                                    if d < 725 {
                                        953190667
                                    } else {
                                        if d < 726 {
                                            953716950
                                        } else {
                                            954240328
                                        }
                                    }
                                } else {
                                    if d < 729 {
                                        if d < 728 {
                                            954760799
                                        } else {
                                            955278362
                                        }
                                    } else {
                                        if d < 730 {
                                            955793014
                                        } else {
                                            956304755
                                        }
                                    }
                                }
                            }
                        }
                    }
                } else {
                    if d < 759 {
                        if d < 745 {
                            if d < 738 {
                                if d < 734 {
                                    if d < 732 {
                                        956813584
                                    } else {
                                        if d < 733 {
                                            957319497
                                        } else {
                                            957822494
                                        }
                                    }
                                } else {
                                    if d < 736 {
                                        if d < 735 {
                                            958322574
                                        } else {
                                            958819734
                                        }
                                    } else {
                                        if d < 737 {
                                            959313974
                                        } else {
                                            959805291
                                        }
                                    }
                                }
                            } else {
                                if d < 741 {
                                    if d < 739 {
                                        960293685
                                    } else {
                                        if d < 740 {
                                            960779154
                                        } else {
                                            961261695
                                        }
                                    }
                                } else {
                                    if d < 743 {
                                        if d < 742 {
                                            961741309
                                        } else {
                                            962217993
                                        }
                                    } else {
                                        if d < 744 {
                                            962691746
                                        } else {
                                            963162566
                                        }
                                    }
                                }
                            }
                        } else {
                            if d < 752 {
                                if d < 748 {
                                    if d < 746 {
                                        963630453
                                    } else {
                                        if d < 747 {
                                            964095404
                                        } else {
                                            964557418
                                        }
                                    }
                                } else {
                                    if d < 750 {
                                        if d < 749 {
                                            965016494
                                        } else {
                                            965472630
                                        }
                                    } else {
                                        if d < 751 {
                                            965925826
                                        } else {
                                            966376079
                                        }
                                    }
                                }
                            } else {
                                if d < 755 {
                                    if d < 753 {
                                        966823388
                                    } else {
                                        if d < 754 {
                                            967267752
                                        } else {
                                            967709170
                                        }
                                    }
                                } else {
                                    if d < 757 {
                                        if d < 756 {
                                            968147640
                                        } else {
                                            968583161
                                        }
                                    } else {
                                        if d < 758 {
                                            969015731
                                        } else {
                                            969445349
                                        }
                                    }
                                }
                            }
                        }
                    } else {
                        if d < 773 {
                            if d < 766 {
                                if d < 762 {
                                    if d < 760 {
                                        969872015
                                    } else {
                                        if d < 761 {
                                            970295726
                                        } else {
                                            970716481
                                        }
                                    }
                                } else {
                                    if d < 764 {
                                        if d < 763 {
                                            971134279
                                        } else {
                                            971549119
                                        }
                                    } else {
                                        if d < 765 {
                                            971961000
                                        } else {
                                            972369920
                                        }
                                    }
                                }
                            } else {
                                if d < 769 {
                                    if d < 767 {
                                        972775878
                                    } else {
                                        if d < 768 {
                                            973178872
                                        } else {
                                            973578902
                                        }
                                    }
                                } else {
                                    if d < 771 {
                                        if d < 770 {
                                            973975967
                                        } else {
                                            974370064
                                        }
                                    } else {
                                        if d < 772 {
                                            974761194
                                        } else {
                                            975149354
                                        }
                                    }
                                }
                            }
                        } else {
                            if d < 780 {
                                if d < 776 {
                                    if d < 774 {
                                        975534543
                                    } else {
                                        if d < 775 {
                                            975916761
                                        } else {
                                            976296007
                                        }
                                    }
                                } else {
                                    if d < 778 {
                                        if d < 777 {
                                            976672278
                                        } else {
                                            977045574
                                        }
                                    } else {
                                        if d < 779 {
                                            977415894
                                        } else {
                                            977783236
                                        }
                                    }
                                }
                            } else {
                                if d < 784 {
                                    if d < 782 {
                                        if d < 781 {
                                            978147600
                                        } else {
                                            978508985
                                        }
                                    } else {
                                        if d < 783 {
                                            978867388
                                        } else {
                                            979222810
                                        }
                                    }
                                } else {
                                    if d < 786 {
                                        if d < 785 {
                                            979575249
                                        } else {
                                            979924704
                                        }
                                    } else {
                                        if d < 787 {
                                            980271174
                                        } else {
                                            980614658
                                        }
                                    }
                                }
                            }
                        }
                    }
                }
            } else {
                if d < 844 {
                    if d < 816 {
                        if d < 802 {
                            if d < 795 {
                                if d < 791 {
                                    if d < 789 {
                                        980955155
                                    } else {
                                        if d < 790 {
                                            981292663
                                        } else {
                                            981627183
                                        }
                                    }
                                } else {
                                    if d < 793 {
                                        if d < 792 {
                                            981958712
                                        } else {
                                            982287250
                                        }
                                    } else {
                                        if d < 794 {
                                            982612796
                                        } else {
                                            982935349
                                        }
                                    }
                                }
                            } else {
                                if d < 798 {
                                    if d < 796 {
                                        983254907
                                    } else {
                                        if d < 797 {
                                            983571470
                                        } else {
                                            983885037
                                        }
                                    }
                                } else {
                                    if d < 800 {
                                        if d < 799 {
                                            984195607
                                        } else {
                                            984503179
                                        }
                                    } else {
                                        if d < 801 {
                                            984807753
                                        } else {
                                            985109326
                                        }
                                    }
                                }
                            }
                        } else {
                            if d < 809 {
                                if d < 805 {
                                    if d < 803 {
                                        985407898
                                    } else {
                                        if d < 804 {
                                            985703469
                                        } else {
                                            985996037
                                        }
                                    }
                                } else {
                                    if d < 807 {
                                        if d < 806 {
                                            986285601
                                        } else {
                                            986572161
                                        }
                                    } else {
                                        if d < 808 {
                                            986855716
                                        } else {
                                            987136265
                                        }
                                    }
                                }
                            } else {
                                if d < 812 {
                                    if d < 810 {
                                        987413806
                                    } else {
                                        if d < 811 {
                                            987688340
                                        } else {
                                            987959865
                                        }
                                    }
                                } else {
                                    if d < 814 {
                                        if d < 813 {
                                            988228381
                                        } else {
                                            988493886
                                        }
                                    } else {
                                        if d < 815 {
                                            988756381
                                        } else {
                                            989015863
                                        }
                                    }
                                }
                            }
                        }
                    } else {
                        if d < 830 {
                            if d < 823 {
                                if d < 819 {
                                    if d < 817 {
                                        989272332
                                    } else {
                                        if d < 818 {
                                            989525789
                                        } else {
                                            989776230
                                        }
                                    }
                                } else {
                                    if d < 821 {
                                        if d < 820 {
                                            990023657
                                        } else {
                                            990268068
                                        }
                                    } else {
                                        if d < 822 {
                                            990509463
                                        } else {
                                            990747840
                                        }
                                    }
                                }
                            } else {
                                if d < 826 {
                                    if d < 824 {
                                        990983199
                                    } else {
                                        if d < 825 {
                                            991215540
                                        } else {
                                            991444861
                                        }
                                    }
                                } else {
                                    if d < 828 {
                                        if d < 827 {
                                            991671162
                                        } else {
                                            991894442
                                        }
                                    } else {
                                        if d < 829 {
                                            992114701
                                        } else {
                                            992331937
                                        }
                                    }
                                }
                            }
                        } else {
                            if d < 837 {
                                if d < 833 {
                                    if d < 831 {
                                        992546151
                                    } else {
                                        if d < 832 {
                                            992757341
                                        } else {
                                            992965508
                                        }
                                    }
                                } else {
                                    if d < 835 {
                                        if d < 834 {
                                            993170649
                                        } else {
                                            993372765
                                        }
                                    } else {
                                        if d < 836 {
                                            993571855
                                        } else {
                                            993767919
                                        }
                                    }
                                }
                            } else {
                                if d < 840 {
                                    if d < 838 {
                                        993960955
                                    } else {
                                        if d < 839 {
                                            994150963
                                        } else {
                                            994337944
                                        }
                                    }
                                } else {
                                    if d < 842 {
                                        if d < 841 {
                                            994521895
                                        } else {
                                            994702817
                                        }
                                    } else {
                                        if d < 843 {
                                            994880708
                                        } else {
                                            995055569
                                        }
                                    }
                                }
                            }
                        }
                    }
                } else {
                    if d < 872 {
                        if d < 858 {
                            if d < 851 {
                                if d < 847 {
                                    if d < 845 {
                                        995227399
                                    } else {
                                        if d < 846 {
                                            995396198
                                        } else {
                                            995561964
                                        }
                                    }
                                } else {
                                    if d < 849 {
                                        if d < 848 {
                                            995724698
                                        } else {
                                            995884398
                                        }
                                    } else {
                                        if d < 850 {
                                            996041065
                                        } else {
                                            996194698
                                        }
                                    }
                                }
                            } else {
                                if d < 854 {
                                    if d < 852 {
                                        996345296
                                    } else {
                                        if d < 853 {
                                            996492859
                                        } else {
                                            996637386
                                        }
                                    }
                                } else {
                                    if d < 856 {
                                        if d < 855 {
                                            996778878
                                        } else {
                                            996917333
                                        }
                                    } else {
                                        if d < 857 {
                                            997052752
                                        } else {
                                            997185133
                                        }
                                    }
                                }
                            }
                        } else {
                            if d < 865 {
                                if d < 861 {
                                    if d < 859 {
                                        997314477
                                    } else {
                                        if d < 860 {
                                            997440782
                                        } else {
                                            997564050
                                        }
                                    }
                                } else {
                                    if d < 863 {
                                        if d < 862 {
                                            997684278
                                        } else {
                                            997801468
                                        }
                                    } else {
                                        if d < 864 {
                                            997915618
                                        } else {
                                            998026728
                                        }
                                    }
                                }
                            } else {
                                if d < 868 {
                                    if d < 866 {
                                        998134798
                                    } else {
                                        if d < 867 {
                                            998239827
                                        } else {
                                            998341816
                                        }
                                    }
                                } else {
                                    if d < 870 {
                                        if d < 869 {
                                            998440764
                                        } else {
                                            998536670
                                        }
                                    } else {
                                        if d < 871 {
                                            998629534
                                        } else {
                                            998719357
                                        }
                                    }
                                }
                            }
                        }
                    } else {
                        if d < 886 {
                            if d < 879 {
                                if d < 875 {
                                    if d < 873 {
                                        998806137
                                    } else {
                                        if d < 874 {
                                            998889874
                                        } else {
                                            998970569
                                        }
                                    }
                                } else {
                                    if d < 877 {
                                        if d < 876 {
                                            999048221
                                        } else {
                                            999122830
                                        }
                                    } else {
                                        if d < 878 {
                                            999194395
                                        } else {
                                            999262916
                                        }
                                    }
                                }
                            } else {
                                if d < 882 {
                                    if d < 880 {
                                        999328393
                                    } else {
                                        if d < 881 {
                                            999390827
                                        } else {
                                            999450215
                                        }
                                    }
                                } else {
                                    if d < 884 {
                                        if d < 883 {
                                            999506560
                                        } else {
                                            999559860
                                        }
                                    } else {
                                        if d < 885 {
                                            999610115
                                        } else {
                                            999657324
                                        }
                                    }
                                }
                            }
                        } else {
                            if d < 893 {
                                if d < 889 {
                                    if d < 887 {
                                        999701489
                                    } else {
                                        if d < 888 {
                                            999742609
                                        } else {
                                            999780683
                                        }
                                    }
                                } else {
                                    if d < 891 {
                                        if d < 890 {
                                            999815712
                                        } else {
                                            999847695
                                        }
                                    } else {
                                        if d < 892 {
                                            999876632
                                        } else {
                                            999902524
                                        }
                                    }
                                }
                            } else {
                                if d < 897 {
                                    if d < 895 {
                                        if d < 894 {
                                            999925369
                                        } else {
                                            999945169
                                        }
                                    } else {
                                        if d < 896 {
                                            999961923
                                        } else {
                                            999975630
                                        }
                                    }
                                } else {
                                    if d < 899 {
                                        if d < 898 {
                                            999986292
                                        } else {
                                            999993907
                                        }
                                    } else {
                                        if d < 900 {
                                            999998476
                                        } else {
                                            1000000000
                                        }
                                    }
                                }
                            }
                        }
                    }
                }
            }
        }
    }
}

pub fn cosine(d: u64) -> (r: i64)
    requires
        d <= 900,
    ensures
        r == cosine_spec(d),
        0 <= r <= UNIT,
{
    sine(900 - d)
}

/// The tabulated sine and cosine of an angle never describe a vector longer
/// than one unit.
#[verifier::rlimit(100)]
pub proof fn lemma_unit_bound(d: u64)
    requires
        d <= 900,
    ensures
        sine_spec(d) * sine_spec(d) + cosine_spec(d) * cosine_spec(d) <= UNIT * UNIT,
        0 <= sine_spec(d) <= UNIT,
        0 <= cosine_spec(d) <= UNIT,
{
    reveal(sine_spec);
}

/// The table's values at 0°, 30°, 60° and 90°.
pub proof fn lemma_table_landmarks()
    ensures
        sine_spec(0) == 0,
        sine_spec(300) == 500_000_000,
        sine_spec(600) == 866_025_403,
        sine_spec(900) == UNIT,
{
    reveal(sine_spec);
}

} // verus!
